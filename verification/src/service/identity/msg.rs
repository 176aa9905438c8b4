//! Messages of the identity service.

use crate::crypto::ecdsa::EcdsaPrivateKey;
use crate::util::message::MessageHeader;
use crate::util::message::MessageIn;
use crate::util::message::MessageOutCompound;
use crate::util::message::MessageTrait;
use crate::util::message_type::MessageType;
use crate::util::serial::be16;
use crate::util::serial::be16_val;
use crate::util::serial::be32_val;
use crate::util::serial::bytes_to_str;
use crate::util::serial::lemma_first_nul_at;
use crate::util::serial::read_u16_be;
use crate::util::serial::read_u32_be;
use crate::util::serial::spec_first_nul;
use crate::util::serial::split_on;
use crate::util::serial::str_bytes;
use crate::util::serial::str_from_cstr;
use vstd::prelude::*;
use vstd::slice::slice_subrange;
use vstd::string::StringExecFns;
use vstd::utf8::decode_utf8;
use vstd::utf8::encode_utf8;
use vstd::utf8::valid_utf8;

verus! {

/// The fields of the subscription message: none.
pub ghost struct LookupView {
}

/// The first message sent to the identity service; subscribes to updates.
pub struct Lookup {
}

impl View for Lookup {
    type V = LookupView;

    closed spec fn view(&self) -> LookupView {
        LookupView {  }
    }
}

impl Lookup {
    /// The subscription message.
    pub fn new() -> (r: Lookup)
        ensures
            r@ == (LookupView {  }),
    {
        Lookup {  }
    }
}

impl MessageTrait for Lookup {
    /// A bare header of four bytes.
    open spec fn spec_wire(v: LookupView) -> Seq<u8> {
        crate::util::message::spec_header_bytes(4, MessageType::IDENTITY_START.code())
    }

    fn into_slice(&self) -> (r: Vec<u8>) {
        let mut out: Vec<u8> = Vec::new();
        MessageHeader::new(4, MessageType::IDENTITY_START).encode(&mut out);
        proof {
            assert(out@ =~= Lookup::spec_wire(self@));
        }
        out
    }
}

/// The fields of a `GetDefault` request, as specification values.
pub ghost struct GetDefaultView {
    /// The subsystem whose default identity is asked for.
    pub name: Seq<char>,
}

/// Ask for the default identity of a subsystem.  Sent as a compound
/// message: a fixed prefix, the name bytes, one NUL.
pub struct GetDefault {
    name: String,
}

impl GetDefault {
    /// The framed message always fits the 16-bit length field.
    #[verifier::type_invariant]
    spec fn type_inv(self) -> bool {
        encode_utf8(self.name@).len() + 9 <= 0xffff
    }
}

impl View for GetDefault {
    type V = GetDefaultView;

    closed spec fn view(&self) -> GetDefaultView {
        GetDefaultView { name: self.name@ }
    }
}

impl GetDefault {
    /// A request for the subsystem `name`.  `None` where the name is too
    /// long for the message's 16-bit length field.
    pub fn new(name: String) -> (r: Option<GetDefault>)
        ensures
            match r {
                Some(m) => encode_utf8(name@).len() + 9 <= 0xffff && m@.name == name@,
                None => encode_utf8(name@).len() + 9 > 0xffff,
            },
    {
        let nb = str_bytes(name.as_str());
        proof {
            vstd::utf8::decode_utf8_encode_utf8(nb@);
            vstd::utf8::encode_utf8_decode_utf8(name@);
        }
        if nb.len() <= 0xffff - 9 {
            Some(GetDefault { name })
        } else {
            None
        }
    }
}

impl MessageOutCompound for GetDefault {
    /// Three chunks: the eight-byte prefix — header, name length
    /// (terminator included), reserved word — then the name bytes, then
    /// one NUL byte.
    open spec fn spec_chunks(v: GetDefaultView) -> Seq<Seq<u8>> {
        let nb = encode_utf8(v.name);
        seq![
            crate::util::message::spec_header_bytes(
                (nb.len() + 9) as u16,
                MessageType::IDENTITY_GET_DEFAULT.code(),
            ) + be16((nb.len() + 1) as u16) + be16(0),
            nb,
            seq![0u8],
        ]
    }

    fn as_byte_chunks(&self) -> (r: Vec<Vec<u8>>) {
        proof {
            use_type_invariant(&*self);
        }
        let nb = str_bytes(self.name.as_str());
        proof {
            vstd::utf8::decode_utf8_encode_utf8(nb@);
            vstd::utf8::encode_utf8_decode_utf8(self.name@);
        }
        let name_chunk = vstd::slice::slice_to_vec(nb);
        let mut prefix: Vec<u8> = Vec::new();
        let total: usize = nb.len() + 9;
        let name_len: usize = nb.len() + 1;
        MessageHeader::new(total as u16, MessageType::IDENTITY_GET_DEFAULT).encode(&mut prefix);
        crate::util::serial::push_u16_be(&mut prefix, name_len as u16);
        crate::util::serial::push_u16_be(&mut prefix, 0);
        let mut nul: Vec<u8> = Vec::new();
        nul.push(0u8);
        let mut out: Vec<Vec<u8>> = Vec::new();
        out.push(prefix);
        out.push(name_chunk);
        out.push(nul);
        proof {
            assert(nul@ =~= seq![0u8]);
            assert(out@.map_values(|c: Vec<u8>| c@) =~= GetDefault::spec_chunks(self@));
        }
        out
    }
}

/// The fields of a `SetDefault` message, as specification values.
pub ghost struct SetDefaultView {
    /// Length of the name, terminator included.
    pub name_len: u16,
    /// Reserved word, always zero in practice.
    pub reserved: u16,
    /// The default identity's private key: 32 scalar bytes.
    pub private_key: Seq<u8>,
    /// The subsystem name.
    pub name: Seq<char>,
}

/// The service reports (or a client sets) the default identity of a
/// subsystem: a fixed prefix with the private key, then the
/// NUL-terminated name whose length the prefix declares.
pub struct SetDefault {
    name_len: u16,
    reserved: u16,
    private_key: EcdsaPrivateKey,
    name: String,
}

impl View for SetDefault {
    type V = SetDefaultView;

    closed spec fn view(&self) -> SetDefaultView {
        SetDefaultView {
            name_len: self.name_len,
            reserved: self.reserved,
            private_key: self.private_key.spec_bytes(),
            name: self.name@,
        }
    }
}

impl SetDefault {
    /// The name and the private key, giving up the message.
    pub fn into_name_and_key(self) -> (r: (String, EcdsaPrivateKey))
        ensures
            r.0@ == self@.name,
            r.1.spec_bytes() == self@.private_key,
    {
        (self.name, self.private_key)
    }
}

/// Whether `tail` holds exactly `name_len` bytes: a name with no NUL
/// inside, then the terminator as the very last byte.
pub open spec fn spec_name_field_ok(tail: Seq<u8>, name_len: u16) -> bool {
    &&& tail.len() == name_len
    &&& name_len >= 1
    &&& spec_first_nul(tail) == Some(name_len - 1)
    &&& valid_utf8(tail.subrange(0, name_len - 1))
}

impl MessageIn for SetDefault {
    open spec fn spec_msg_type() -> MessageType {
        MessageType::IDENTITY_SET_DEFAULT
    }

    /// The 36-byte prefix, then the name field, which must fill the
    /// declared length exactly — a declared length that disagrees with
    /// the bytes that follow fails the parse rather than reading past
    /// them.
    open spec fn spec_parse(b: Seq<u8>) -> Option<SetDefaultView> {
        if b.len() < 36 {
            None
        } else {
            let name_len = be16_val(b.subrange(0, 2));
            let tail = b.subrange(36, b.len() as int);
            if !spec_name_field_ok(tail, name_len) {
                None
            } else {
                Some(
                    SetDefaultView {
                        name_len,
                        reserved: be16_val(b.subrange(2, 4)),
                        private_key: b.subrange(4, 36),
                        name: decode_utf8(tail.subrange(0, name_len - 1)),
                    },
                )
            }
        }
    }

    fn msg_type() -> (t: MessageType) {
        MessageType::IDENTITY_SET_DEFAULT
    }

    fn from_bytes(b: &[u8]) -> (r: Option<Self>) {
        if b.len() < 36 {
            return None;
        }
        let name_len = read_u16_be(b, 0);
        let reserved = read_u16_be(b, 2);
        let private_key = match EcdsaPrivateKey::from_bytes(slice_subrange(b, 4, 36)) {
            Some(k) => k,
            None => {
                return None;
            },
        };
        let tail = slice_subrange(b, 36, b.len());
        if tail.len() != name_len as usize || name_len == 0 {
            return None;
        }
        match split_on(tail, 0u8) {
            None => {
                proof {
                    crate::util::serial::lemma_first_nul_props(tail@);
                }
                None
            },
            Some((head, rest)) => {
                let ghost i = head@.len() as int;
                proof {
                    lemma_first_nul_at(tail@, i);
                }
                if rest.len() != 0 {
                    return None;
                }
                match bytes_to_str(head) {
                    None => {
                        proof {
                            assert(head@ =~= tail@.subrange(0, name_len - 1));
                        }
                        None
                    },
                    Some(s) => {
                        proof {
                            assert(head@ =~= tail@.subrange(0, name_len - 1));
                        }
                        Some(SetDefault { name_len, reserved, private_key, name: s.to_owned() })
                    },
                }
            },
        }
    }
}

/// The fields of a `ResultCode` response, as specification values.
pub ghost struct ResultCodeView {
    /// The numeric result code.
    pub result_code: u32,
    /// The message text sent along with the code.
    pub err_msg: Seq<char>,
}

/// Generic response from the identity service: a numeric code and a
/// NUL-terminated message.
pub struct ResultCode {
    /// The numeric result code.
    pub result_code: u32,
    /// The message text sent along with the code.
    pub err_msg: String,
}

impl View for ResultCode {
    type V = ResultCodeView;

    open spec fn view(&self) -> ResultCodeView {
        ResultCodeView { result_code: self.result_code, err_msg: self.err_msg@ }
    }
}

impl MessageIn for ResultCode {
    open spec fn spec_msg_type() -> MessageType {
        MessageType::IDENTITY_RESULT_CODE
    }

    /// The code, then the message text ending in its NUL terminator.  A
    /// text field without the terminator fails the parse.
    open spec fn spec_parse(b: Seq<u8>) -> Option<ResultCodeView> {
        if b.len() < 5 {
            None
        } else if b[b.len() - 1] != 0 {
            None
        } else {
            let body = b.subrange(4, b.len() - 1);
            if !valid_utf8(body) {
                None
            } else {
                Some(
                    ResultCodeView {
                        result_code: be32_val(b.subrange(0, 4)),
                        err_msg: decode_utf8(body),
                    },
                )
            }
        }
    }

    fn msg_type() -> (t: MessageType) {
        MessageType::IDENTITY_RESULT_CODE
    }

    fn from_bytes(b: &[u8]) -> (r: Option<Self>) {
        if b.len() < 5 {
            return None;
        }
        let result_code = read_u32_be(b, 0);
        let tail = slice_subrange(b, 4, b.len());
        proof {
            assert(tail@.subrange(0, tail@.len() - 1) =~= b@.subrange(4, b@.len() - 1));
            assert(tail@[tail@.len() - 1] == b@[b@.len() - 1]);
        }
        match str_from_cstr(tail) {
            None => None,
            Some(s) => Some(ResultCode { result_code, err_msg: s.to_owned() }),
        }
    }
}

/// The fields of an `Update` message, as specification values.
pub ghost struct UpdateView {
    /// Length of the name, terminator included; zero at the end of the
    /// list.
    pub name_len: u16,
    /// Nonzero when this update ends the initial listing.
    pub end_of_list: u16,
    /// The identity's private key: 32 scalar bytes.
    pub private_key: Seq<u8>,
    /// The identity's name, empty at the end of the list.
    pub name: Seq<char>,
}

/// Update about identity status: one identity per message, a final
/// message with the end-of-list flag set.
pub struct Update {
    /// Length of the name, terminator included.
    pub name_len: u16,
    /// Nonzero when this update ends the initial listing.
    pub end_of_list: u16,
    /// The identity's private key.
    pub private_key: EcdsaPrivateKey,
    /// The identity's name, empty at the end of the list.
    pub name: String,
}

impl View for Update {
    type V = UpdateView;

    open spec fn view(&self) -> UpdateView {
        UpdateView {
            name_len: self.name_len,
            end_of_list: self.end_of_list,
            private_key: self.private_key.spec_bytes(),
            name: self.name@,
        }
    }
}

impl Update {
    /// Whether this update ends the initial listing.
    pub fn end_of_list(&self) -> (r: bool)
        ensures
            r == (self@.end_of_list != 0),
    {
        self.end_of_list != 0
    }
}

impl MessageIn for Update {
    open spec fn spec_msg_type() -> MessageType {
        MessageType::IDENTITY_UPDATE
    }

    /// The 36-byte prefix; with the end-of-list flag set nothing more is
    /// read, otherwise the name field must fill its declared length
    /// exactly.
    open spec fn spec_parse(b: Seq<u8>) -> Option<UpdateView> {
        if b.len() < 36 {
            None
        } else {
            let name_len = be16_val(b.subrange(0, 2));
            let end_of_list = be16_val(b.subrange(2, 4));
            let private_key = b.subrange(4, 36);
            let tail = b.subrange(36, b.len() as int);
            if end_of_list != 0 {
                Some(UpdateView { name_len, end_of_list, private_key, name: seq![] })
            } else if !spec_name_field_ok(tail, name_len) {
                None
            } else {
                Some(
                    UpdateView {
                        name_len,
                        end_of_list,
                        private_key,
                        name: decode_utf8(tail.subrange(0, name_len - 1)),
                    },
                )
            }
        }
    }

    fn msg_type() -> (t: MessageType) {
        MessageType::IDENTITY_UPDATE
    }

    fn from_bytes(b: &[u8]) -> (r: Option<Self>) {
        if b.len() < 36 {
            return None;
        }
        let name_len = read_u16_be(b, 0);
        let end_of_list = read_u16_be(b, 2);
        let private_key = match EcdsaPrivateKey::from_bytes(slice_subrange(b, 4, 36)) {
            Some(k) => k,
            None => {
                return None;
            },
        };
        if end_of_list != 0 {
            let name = String::new();
            return Some(Update { name_len, end_of_list, private_key, name });
        }
        let tail = slice_subrange(b, 36, b.len());
        if tail.len() != name_len as usize || name_len == 0 {
            return None;
        }
        match split_on(tail, 0u8) {
            None => {
                proof {
                    crate::util::serial::lemma_first_nul_props(tail@);
                }
                None
            },
            Some((head, rest)) => {
                let ghost i = head@.len() as int;
                proof {
                    lemma_first_nul_at(tail@, i);
                }
                if rest.len() != 0 {
                    return None;
                }
                match bytes_to_str(head) {
                    None => {
                        proof {
                            assert(head@ =~= tail@.subrange(0, name_len - 1));
                        }
                        None
                    },
                    Some(s) => {
                        proof {
                            assert(head@ =~= tail@.subrange(0, name_len - 1));
                        }
                        Some(
                            Update {
                                name_len,
                                end_of_list,
                                private_key,
                                name: s.to_owned(),
                            },
                        )
                    },
                }
            },
        }
    }
}

/// The body bytes a `SetDefault` message with view `v` travels as: the
/// prefix fields, the name's UTF-8 bytes, the terminator.
pub open spec fn spec_serialize_set_default(v: SetDefaultView) -> Seq<u8> {
    be16(v.name_len) + be16(v.reserved) + v.private_key + encode_utf8(v.name) + seq![0u8]
}

/// A `SetDefault` view that can travel at all: a 32-byte key, no NUL
/// inside the name, and the declared length counting the name bytes and
/// the terminator.
pub open spec fn set_default_wf(v: SetDefaultView) -> bool {
    &&& v.private_key.len() == 32
    &&& v.name_len == encode_utf8(v.name).len() + 1
    &&& v.name_len <= 0xffff
    &&& forall|i: int| 0 <= i < encode_utf8(v.name).len() ==> encode_utf8(v.name)[i] != 0
}

/// Round trip: every well-formed `SetDefault` view parses back from its
/// own byte image, unchanged.
pub proof fn lemma_set_default_roundtrip(v: SetDefaultView)
    requires
        set_default_wf(v),
    ensures
        SetDefault::spec_parse(spec_serialize_set_default(v)) == Some(v),
{
    let b = spec_serialize_set_default(v);
    let nb = encode_utf8(v.name);
    let tail = b.subrange(36, b.len() as int);
    assert(b.subrange(0, 2) =~= be16(v.name_len));
    assert(b.subrange(2, 4) =~= be16(v.reserved));
    assert(b.subrange(4, 36) =~= v.private_key);
    assert(tail =~= nb + seq![0u8]);
    crate::util::serial::lemma_be16_roundtrip(v.name_len);
    crate::util::serial::lemma_be16_roundtrip(v.reserved);
    assert(tail[tail.len() - 1] == 0);
    assert forall|j: int| 0 <= j < v.name_len - 1 implies tail[j] != 0 by {
        assert(tail[j] == nb[j]);
    }
    lemma_first_nul_at(tail, v.name_len - 1);
    assert(tail.subrange(0, v.name_len - 1) =~= nb);
    vstd::utf8::encode_utf8_valid_utf8(v.name);
    vstd::utf8::encode_utf8_decode_utf8(v.name);
    assert(spec_name_field_ok(tail, v.name_len));
}

/// A body shorter than the fixed 36-byte prefix never parses as a
/// `SetDefault`, whatever it holds.
pub proof fn lemma_set_default_short_body(b: Seq<u8>)
    requires
        b.len() < 36,
    ensures
        SetDefault::spec_parse(b) is None,
{
}

/// The body bytes a `ResultCode` message with view `v` travels as: the
/// code, the message's UTF-8 bytes, the terminator.
pub open spec fn spec_serialize_result_code(v: ResultCodeView) -> Seq<u8> {
    crate::util::serial::be32(v.result_code) + encode_utf8(v.err_msg) + seq![0u8]
}

/// Round trip: every `ResultCode` view parses back from its own byte
/// image, unchanged.
pub proof fn lemma_result_code_roundtrip(v: ResultCodeView)
    ensures
        ResultCode::spec_parse(spec_serialize_result_code(v)) == Some(v),
{
    let b = spec_serialize_result_code(v);
    let nb = encode_utf8(v.err_msg);
    assert(b.subrange(0, 4) =~= crate::util::serial::be32(v.result_code));
    assert(b[b.len() - 1] == 0);
    crate::util::serial::lemma_be32_roundtrip(v.result_code);
    assert(b.subrange(4, b.len() - 1) =~= nb);
    vstd::utf8::encode_utf8_valid_utf8(v.err_msg);
    vstd::utf8::encode_utf8_decode_utf8(v.err_msg);
}

/// A body shorter than the four-byte code and the terminator never
/// parses as a `ResultCode`, whatever it holds.
pub proof fn lemma_result_code_short_body(b: Seq<u8>)
    requires
        b.len() < 5,
    ensures
        ResultCode::spec_parse(b) is None,
{
}

/// The body bytes an `Update` message with view `v` travels as, for an
/// update that carries an identity.
pub open spec fn spec_serialize_update(v: UpdateView) -> Seq<u8> {
    be16(v.name_len) + be16(v.end_of_list) + v.private_key + encode_utf8(v.name) + seq![0u8]
}

/// A carrying `Update` view that can travel at all: not the end of the
/// list, a 32-byte key, no NUL inside the name, and the declared length
/// counting the name bytes and the terminator.
pub open spec fn update_wf(v: UpdateView) -> bool {
    &&& v.end_of_list == 0
    &&& v.private_key.len() == 32
    &&& v.name_len == encode_utf8(v.name).len() + 1
    &&& v.name_len <= 0xffff
    &&& forall|i: int| 0 <= i < encode_utf8(v.name).len() ==> encode_utf8(v.name)[i] != 0
}

/// Round trip: every well-formed carrying `Update` view parses back from
/// its own byte image, unchanged.
pub proof fn lemma_update_roundtrip(v: UpdateView)
    requires
        update_wf(v),
    ensures
        Update::spec_parse(spec_serialize_update(v)) == Some(v),
{
    let b = spec_serialize_update(v);
    let nb = encode_utf8(v.name);
    let tail = b.subrange(36, b.len() as int);
    assert(b.subrange(0, 2) =~= be16(v.name_len));
    assert(b.subrange(2, 4) =~= be16(v.end_of_list));
    assert(b.subrange(4, 36) =~= v.private_key);
    assert(tail =~= nb + seq![0u8]);
    crate::util::serial::lemma_be16_roundtrip(v.name_len);
    crate::util::serial::lemma_be16_roundtrip(v.end_of_list);
    assert(tail[tail.len() - 1] == 0);
    assert forall|j: int| 0 <= j < v.name_len - 1 implies tail[j] != 0 by {
        assert(tail[j] == nb[j]);
    }
    lemma_first_nul_at(tail, v.name_len - 1);
    assert(tail.subrange(0, v.name_len - 1) =~= nb);
    vstd::utf8::encode_utf8_valid_utf8(v.name);
    vstd::utf8::encode_utf8_decode_utf8(v.name);
    assert(spec_name_field_ok(tail, v.name_len));
}

/// A body shorter than the fixed 36-byte prefix never parses as an
/// `Update`, whatever it holds.
pub proof fn lemma_update_short_body(b: Seq<u8>)
    requires
        b.len() < 36,
    ensures
        Update::spec_parse(b) is None,
{
}

} // verus!
