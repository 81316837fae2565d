//! The compact binary encoding of the messages between server and client.
//!
//! The layout of every message is stated here as a function from the
//! message's view to bytes (`*_bytes`) and as a partial function from bytes
//! back to a view (`parse_*`). Integers and texts are written and read by
//! `bincode` in its standard configuration; how a message is put together from
//! them is this module's own.

use crate::model::{
    AuthResult, ClientOpt, ContainerStatus, ContainerStatusView, Newspeak, NewspeakView,
    OnlinePeople, OnlinePeopleView, ServerStatus, ServerStatusView,
};
use vstd::bytes::{
    lemma_auto_spec_u16_to_from_le_bytes, lemma_auto_spec_u32_to_from_le_bytes,
    lemma_auto_spec_u64_to_from_le_bytes, spec_u16_from_le_bytes, spec_u16_to_le_bytes,
    spec_u32_from_le_bytes, spec_u32_to_le_bytes, spec_u64_from_le_bytes, spec_u64_to_le_bytes,
};
use vstd::pervasive::unreached;
use vstd::prelude::*;
use vstd::slice::slice_subrange;
use vstd::utf8::{
    decode_utf8, encode_utf8, encode_utf8_decode_utf8, encode_utf8_valid_utf8, valid_utf8,
};

verus! {

/// `bincode::error::EncodeError`, of which nothing is looked at.
#[verifier::external_type_specification]
#[verifier::external_body]
pub struct ExEncodeError(bincode::error::EncodeError);

/// `bincode::error::DecodeError`, of which nothing is looked at: whatever
/// the reason, what cannot be read is no message.
#[verifier::external_type_specification]
#[verifier::external_body]
pub struct ExDecodeError(bincode::error::DecodeError);

/// The variable-length form of an unsigned integer below 2^64: one byte up
/// to 250, else a marker byte (251, 252, 253) followed by the value in 2, 4 or
/// 8 little-endian bytes, whichever is the narrowest that holds it.
pub open spec fn varint(value: nat) -> Seq<u8> {
    if value <= 250 {
        seq![value as u8]
    } else if value <= 0xffff {
        seq![251u8] + spec_u16_to_le_bytes(value as u16)
    } else if value <= 0xffff_ffff {
        seq![252u8] + spec_u32_to_le_bytes(value as u32)
    } else {
        seq![253u8] + spec_u64_to_le_bytes(value as u64)
    }
}

/// Reads a variable-length integer of at most 64 bits from the front of
/// `bytes`: the value and the number of bytes it took. A wider form than the
/// value needs is accepted.
pub open spec fn read_varint_u64(bytes: Seq<u8>) -> Option<(u64, nat)> {
    if bytes.len() == 0 {
        None
    } else if bytes[0] <= 250 {
        Some((bytes[0] as u64, 1nat))
    } else if bytes[0] == 251 && bytes.len() >= 3 {
        Some((spec_u16_from_le_bytes(bytes.subrange(1, 3)) as u64, 3nat))
    } else if bytes[0] == 252 && bytes.len() >= 5 {
        Some((spec_u32_from_le_bytes(bytes.subrange(1, 5)) as u64, 5nat))
    } else if bytes[0] == 253 && bytes.len() >= 9 {
        Some((spec_u64_from_le_bytes(bytes.subrange(1, 9)), 9nat))
    } else {
        None
    }
}

/// Reads a variable-length integer of at most 32 bits from the front of
/// `bytes`. The 8-byte form is refused whatever it holds.
pub open spec fn read_varint_u32(bytes: Seq<u8>) -> Option<(u32, nat)> {
    if bytes.len() == 0 {
        None
    } else if bytes[0] <= 250 {
        Some((bytes[0] as u32, 1nat))
    } else if bytes[0] == 251 && bytes.len() >= 3 {
        Some((spec_u16_from_le_bytes(bytes.subrange(1, 3)) as u32, 3nat))
    } else if bytes[0] == 252 && bytes.len() >= 5 {
        Some((spec_u32_from_le_bytes(bytes.subrange(1, 5)), 5nat))
    } else {
        None
    }
}

/// A text on the wire: the length of its UTF-8 form as a variable-length
/// integer, then the UTF-8 bytes.
pub open spec fn text_bytes(text: Seq<char>) -> Seq<u8> {
    varint(encode_utf8(text).len()) + encode_utf8(text)
}

/// Reads a text from the front of `bytes`: a length, then that many bytes,
/// which must be there and must be valid UTF-8.
pub open spec fn read_text(bytes: Seq<u8>) -> Option<(Seq<char>, nat)> {
    match read_varint_u64(bytes) {
        Some((len, used)) => {
            let end = used + len;
            if end <= bytes.len() && valid_utf8(bytes.subrange(used as int, end as int)) {
                Some((decode_utf8(bytes.subrange(used as int, end as int)), end as nat))
            } else {
                None
            }
        },
        None => None,
    }
}

/// Whether the UTF-8 form of `text` has a length below 2^64, as that of every
/// `String` has.
pub open spec fn text_fits(text: Seq<char>) -> bool {
    encode_utf8(text).len() <= u64::MAX
}

/// `bincode::encode_to_vec` on a `u32`, standard configuration. It cannot
/// fail on an integer written to a vector, and gives the variable-length form
/// of the value.
#[verifier::external_body]
fn bincode_encode_u32(value: u32) -> (r: Result<Vec<u8>, bincode::error::EncodeError>)
    ensures
        r is Ok,
        r->Ok_0@ == varint(value as nat),
{
    bincode::encode_to_vec(value, bincode::config::standard())
}

/// `bincode::encode_to_vec` on a `&str`, standard configuration. It cannot
/// fail on a text written to a vector, and gives the byte length of the
/// text in variable-length form followed by the text's UTF-8 bytes.
#[verifier::external_body]
fn bincode_encode_str(text: &str) -> (r: Result<Vec<u8>, bincode::error::EncodeError>)
    ensures
        r is Ok,
        r->Ok_0@ == text_bytes(text@),
{
    bincode::encode_to_vec(text, bincode::config::standard())
}

/// `bincode::decode_from_slice` for a `u32`, standard configuration. It
/// reads one variable-length integer from the front of `src` and reports how
/// many bytes it took; it fails where `src` ends too early or starts with a
/// marker that is reserved or stands for a wider integer.
#[verifier::external_body]
fn bincode_decode_u32(src: &[u8]) -> (r: Result<(u32, usize), bincode::error::DecodeError>)
    ensures
        match read_varint_u32(src@) {
            Some((value, used)) => r matches Ok(got) && got.0 == value && got.1 == used,
            None => r is Err,
        },
{
    bincode::decode_from_slice::<u32, _>(src, bincode::config::standard())
}

/// `bincode::borrow_decode_from_slice` for a `&str`, standard configuration.
/// It reads a length, borrows that many bytes from `src` and checks that they
/// are UTF-8; it fails where the length cannot be read, where fewer bytes
/// follow than the length says, or where they are not UTF-8.
#[verifier::external_body]
fn bincode_decode_str<'a>(src: &'a [u8]) -> (r: Result<
    (&'a str, usize),
    bincode::error::DecodeError,
>)
    ensures
        match read_text(src@) {
            Some((text, used)) => r matches Ok(got) && got.0@ == text && got.1 == used,
            None => r is Err,
        },
{
    bincode::borrow_decode_from_slice::<&str, _>(src, bincode::config::standard())
}

/// Appends the variable-length form of `tag` to `out`.
fn put_tag(out: &mut Vec<u8>, tag: u32)
    ensures
        final(out)@ == old(out)@ + varint(tag as nat),
{
    match bincode_encode_u32(tag) {
        Ok(mut bytes) => out.append(&mut bytes),
        Err(_) => unreached(),
    }
}

/// Appends the wire form of `text` to `out`.
fn put_text(out: &mut Vec<u8>, text: &str)
    ensures
        final(out)@ == old(out)@ + text_bytes(text@),
{
    match bincode_encode_str(text) {
        Ok(mut bytes) => out.append(&mut bytes),
        Err(_) => unreached(),
    }
}

/// Reads a tag from `src` at `pos`; the second part of the result is the
/// position behind it.
fn take_tag(src: &[u8], pos: usize) -> (r: Option<(u32, usize)>)
    requires
        pos <= src@.len(),
    ensures
        match read_varint_u32(src@.skip(pos as int)) {
            Some((value, used)) => r matches Some(got) && got.0 == value && got.1 == pos + used
                && pos + used <= src@.len(),
            None => r is None,
        },
{
    let rest = slice_subrange(src, pos, src.len());
    assert(rest@ == src@.skip(pos as int));
    match bincode_decode_u32(rest) {
        Ok((value, used)) => Some((value, pos + used)),
        Err(_) => None,
    }
}

/// Reads a text from `src` at `pos`; the second part of the result is the
/// position behind it.
fn take_text(src: &[u8], pos: usize) -> (r: Option<(String, usize)>)
    requires
        pos <= src@.len(),
    ensures
        match read_text(src@.skip(pos as int)) {
            Some((text, used)) => r matches Some(got) && got.0@ == text && got.1 == pos + used
                && pos + used <= src@.len(),
            None => r is None,
        },
{
    let rest = slice_subrange(src, pos, src.len());
    assert(rest@ == src@.skip(pos as int));
    match bincode_decode_str(rest) {
        Ok((text, used)) => Some((text.to_owned(), pos + used)),
        Err(_) => None,
    }
}

/// The wire form of an [`AuthResult`]: its variant's index.
pub open spec fn auth_result_bytes(verdict: AuthResult) -> Seq<u8> {
    match verdict {
        AuthResult::Goob => varint(0),
        AuthResult::Sus => varint(1),
    }
}

/// Reads an [`AuthResult`] from the front of `bytes`.
pub open spec fn parse_auth_result(bytes: Seq<u8>) -> Option<(AuthResult, nat)> {
    match read_varint_u32(bytes) {
        Some((tag, used)) => if tag == 0 {
            Some((AuthResult::Goob, used))
        } else if tag == 1 {
            Some((AuthResult::Sus, used))
        } else {
            None
        },
        None => None,
    }
}

/// The wire form of a [`ClientOpt`]: its variant's index.
pub open spec fn client_opt_bytes(opt: ClientOpt) -> Seq<u8> {
    match opt {
        ClientOpt::On => varint(0),
        ClientOpt::Off => varint(1),
        ClientOpt::Reboot => varint(2),
    }
}

/// Reads a [`ClientOpt`] from the front of `bytes`.
pub open spec fn parse_client_opt(bytes: Seq<u8>) -> Option<(ClientOpt, nat)> {
    match read_varint_u32(bytes) {
        Some((tag, used)) => if tag == 0 {
            Some((ClientOpt::On, used))
        } else if tag == 1 {
            Some((ClientOpt::Off, used))
        } else if tag == 2 {
            Some((ClientOpt::Reboot, used))
        } else {
            None
        },
        None => None,
    }
}

/// The wire form of a [`ContainerStatus`]: its variant's index, then the
/// text of `Up`.
pub open spec fn container_status_bytes(status: ContainerStatusView) -> Seq<u8> {
    match status {
        ContainerStatusView::Unknown => varint(0),
        ContainerStatusView::NotUp => varint(1),
        ContainerStatusView::Up(text) => varint(2) + text_bytes(text),
    }
}

/// Reads a [`ContainerStatus`] from the front of `bytes`.
pub open spec fn parse_container_status(bytes: Seq<u8>) -> Option<(ContainerStatusView, nat)> {
    match read_varint_u32(bytes) {
        Some((tag, used)) => if tag == 0 {
            Some((ContainerStatusView::Unknown, used))
        } else if tag == 1 {
            Some((ContainerStatusView::NotUp, used))
        } else if tag == 2 {
            match read_text(bytes.skip(used as int)) {
                Some((text, more)) => Some((ContainerStatusView::Up(text), used + more)),
                None => None,
            }
        } else {
            None
        },
        None => None,
    }
}

/// The wire form of an [`OnlinePeople`]: its variant's index, then the text
/// of `Known`.
pub open spec fn online_people_bytes(online: OnlinePeopleView) -> Seq<u8> {
    match online {
        OnlinePeopleView::Unknown => varint(0),
        OnlinePeopleView::Known(text) => varint(1) + text_bytes(text),
    }
}

/// Reads an [`OnlinePeople`] from the front of `bytes`.
pub open spec fn parse_online_people(bytes: Seq<u8>) -> Option<(OnlinePeopleView, nat)> {
    match read_varint_u32(bytes) {
        Some((tag, used)) => if tag == 0 {
            Some((OnlinePeopleView::Unknown, used))
        } else if tag == 1 {
            match read_text(bytes.skip(used as int)) {
                Some((text, more)) => Some((OnlinePeopleView::Known(text), used + more)),
                None => None,
            }
        } else {
            None
        },
        None => None,
    }
}

/// The wire form of a [`ServerStatus`]: its three fields in order.
pub open spec fn server_status_bytes(status: ServerStatusView) -> Seq<u8> {
    text_bytes(status.host) + container_status_bytes(status.container) + online_people_bytes(
        status.online,
    )
}

/// Reads a [`ServerStatus`] from the front of `bytes`.
pub open spec fn parse_server_status(bytes: Seq<u8>) -> Option<(ServerStatusView, nat)> {
    match read_text(bytes) {
        Some((host, a)) => match parse_container_status(bytes.skip(a as int)) {
            Some((container, b)) => match parse_online_people(bytes.skip((a + b) as int)) {
                Some((online, c)) => Some((ServerStatusView { host, container, online }, a + b + c)),
                None => None,
            },
            None => None,
        },
        None => None,
    }
}

/// The wire form of a [`Newspeak`]: its variant's index, then the variant's
/// content.
pub open spec fn newspeak_bytes(msg: NewspeakView) -> Seq<u8> {
    match msg {
        NewspeakView::AuthResult(verdict) => varint(0) + auth_result_bytes(verdict),
        NewspeakView::ServerStatus(status) => varint(1) + server_status_bytes(status),
        NewspeakView::Feedback(text) => varint(2) + text_bytes(text),
    }
}

/// Reads a [`Newspeak`] from the front of `bytes`.
pub open spec fn parse_newspeak(bytes: Seq<u8>) -> Option<(NewspeakView, nat)> {
    match read_varint_u32(bytes) {
        Some((tag, used)) => if tag == 0 {
            match parse_auth_result(bytes.skip(used as int)) {
                Some((verdict, more)) => Some((NewspeakView::AuthResult(verdict), used + more)),
                None => None,
            }
        } else if tag == 1 {
            match parse_server_status(bytes.skip(used as int)) {
                Some((status, more)) => Some((NewspeakView::ServerStatus(status), used + more)),
                None => None,
            }
        } else if tag == 2 {
            match read_text(bytes.skip(used as int)) {
                Some((text, more)) => Some((NewspeakView::Feedback(text), used + more)),
                None => None,
            }
        } else {
            None
        },
        None => None,
    }
}

fn put_auth_result(out: &mut Vec<u8>, verdict: AuthResult)
    ensures
        final(out)@ == old(out)@ + auth_result_bytes(verdict),
{
    match verdict {
        AuthResult::Goob => put_tag(out, 0),
        AuthResult::Sus => put_tag(out, 1),
    }
}

fn put_container_status(out: &mut Vec<u8>, status: &ContainerStatus)
    ensures
        final(out)@ == old(out)@ + container_status_bytes(status@),
{
    match status {
        ContainerStatus::Unknown => put_tag(out, 0),
        ContainerStatus::NotUp => put_tag(out, 1),
        ContainerStatus::Up(text) => {
            put_tag(out, 2);
            put_text(out, text.as_str());
            assert(out@ == old(out)@ + (varint(2) + text_bytes(text@)));
        },
    }
}

fn put_online_people(out: &mut Vec<u8>, online: &OnlinePeople)
    ensures
        final(out)@ == old(out)@ + online_people_bytes(online@),
{
    match online {
        OnlinePeople::Unknown => put_tag(out, 0),
        OnlinePeople::Known(text) => {
            put_tag(out, 1);
            put_text(out, text.as_str());
            assert(out@ == old(out)@ + (varint(1) + text_bytes(text@)));
        },
    }
}

fn put_server_status(out: &mut Vec<u8>, status: &ServerStatus)
    ensures
        final(out)@ == old(out)@ + server_status_bytes(status@),
{
    put_text(out, status.host.as_str());
    put_container_status(out, &status.container);
    put_online_people(out, &status.online);
    assert(out@ == old(out)@ + server_status_bytes(status@));
}

fn take_auth_result(src: &[u8], pos: usize) -> (r: Option<(AuthResult, usize)>)
    requires
        pos <= src@.len(),
    ensures
        match parse_auth_result(src@.skip(pos as int)) {
            Some((verdict, used)) => r matches Some(got) && got.0 == verdict && got.1 == pos
                + used && pos + used <= src@.len(),
            None => r is None,
        },
{
    match take_tag(src, pos) {
        Some((0, next)) => Some((AuthResult::Goob, next)),
        Some((1, next)) => Some((AuthResult::Sus, next)),
        _ => None,
    }
}

fn take_container_status(src: &[u8], pos: usize) -> (r: Option<(ContainerStatus, usize)>)
    requires
        pos <= src@.len(),
    ensures
        match parse_container_status(src@.skip(pos as int)) {
            Some((status, used)) => r matches Some(got) && got.0@ == status && got.1 == pos + used
                && pos + used <= src@.len(),
            None => r is None,
        },
{
    match take_tag(src, pos) {
        Some((0, next)) => Some((ContainerStatus::Unknown, next)),
        Some((1, next)) => Some((ContainerStatus::NotUp, next)),
        Some((2, next)) => {
            assert(src@.skip(pos as int).skip(next - pos) == src@.skip(next as int));
            match take_text(src, next) {
                Some((text, end)) => Some((ContainerStatus::Up(text), end)),
                None => None,
            }
        },
        _ => None,
    }
}

fn take_online_people(src: &[u8], pos: usize) -> (r: Option<(OnlinePeople, usize)>)
    requires
        pos <= src@.len(),
    ensures
        match parse_online_people(src@.skip(pos as int)) {
            Some((online, used)) => r matches Some(got) && got.0@ == online && got.1 == pos + used
                && pos + used <= src@.len(),
            None => r is None,
        },
{
    match take_tag(src, pos) {
        Some((0, next)) => Some((OnlinePeople::Unknown, next)),
        Some((1, next)) => {
            assert(src@.skip(pos as int).skip(next - pos) == src@.skip(next as int));
            match take_text(src, next) {
                Some((text, end)) => Some((OnlinePeople::Known(text), end)),
                None => None,
            }
        },
        _ => None,
    }
}

fn take_server_status(src: &[u8], pos: usize) -> (r: Option<(ServerStatus, usize)>)
    requires
        pos <= src@.len(),
    ensures
        match parse_server_status(src@.skip(pos as int)) {
            Some((status, used)) => r matches Some(got) && got.0@ == status && got.1 == pos + used
                && pos + used <= src@.len(),
            None => r is None,
        },
{
    let (host, after_host) = match take_text(src, pos) {
        Some(got) => got,
        None => { return None; },
    };
    assert(src@.skip(pos as int).skip(after_host - pos) == src@.skip(after_host as int));
    let (container, after_container) = match take_container_status(src, after_host) {
        Some(got) => got,
        None => { return None; },
    };
    assert(src@.skip(pos as int).skip(after_container - pos) == src@.skip(after_container as int));
    let (online, end) = match take_online_people(src, after_container) {
        Some(got) => got,
        None => { return None; },
    };
    Some((ServerStatus { host, container, online }, end))
}

impl AuthResult {
    /// The bytes that stand for this verdict on the wire.
    pub fn encode(&self) -> (bytes: Vec<u8>)
        ensures
            bytes@ == auth_result_bytes(*self),
    {
        let mut out: Vec<u8> = Vec::new();
        put_auth_result(&mut out, *self);
        assert(out@ == auth_result_bytes(*self));
        out
    }

    /// Reads a verdict from the front of `src`, and says how many bytes it
    /// took. Bytes behind it are left alone. `None` where `src` does not start
    /// with a verdict.
    pub fn decode(src: &[u8]) -> (r: Option<(AuthResult, usize)>)
        ensures
            match parse_auth_result(src@) {
                Some((verdict, used)) => r matches Some(got) && got.0 == verdict && got.1 == used
                    && used <= src@.len(),
                None => r is None,
            },
    {
        assert(src@.skip(0) == src@);
        take_auth_result(src, 0)
    }
}

impl ClientOpt {
    /// The bytes that stand for this command on the wire.
    pub fn encode(&self) -> (bytes: Vec<u8>)
        ensures
            bytes@ == client_opt_bytes(*self),
    {
        let mut out: Vec<u8> = Vec::new();
        match self {
            ClientOpt::On => put_tag(&mut out, 0),
            ClientOpt::Off => put_tag(&mut out, 1),
            ClientOpt::Reboot => put_tag(&mut out, 2),
        }
        assert(out@ == client_opt_bytes(*self));
        out
    }

    /// Reads a command from the front of `src`, and says how many bytes it
    /// took. Bytes behind it are left alone. `None` where `src` does not start
    /// with a command.
    pub fn decode(src: &[u8]) -> (r: Option<(ClientOpt, usize)>)
        ensures
            match parse_client_opt(src@) {
                Some((opt, used)) => r matches Some(got) && got.0 == opt && got.1 == used && used
                    <= src@.len(),
                None => r is None,
            },
    {
        assert(src@.skip(0) == src@);
        match take_tag(src, 0) {
            Some((0, next)) => Some((ClientOpt::On, next)),
            Some((1, next)) => Some((ClientOpt::Off, next)),
            Some((2, next)) => Some((ClientOpt::Reboot, next)),
            _ => None,
        }
    }
}

impl ContainerStatus {
    /// The bytes that stand for this value on the wire.
    pub fn encode(&self) -> (bytes: Vec<u8>)
        ensures
            bytes@ == container_status_bytes(self@),
    {
        let mut out: Vec<u8> = Vec::new();
        put_container_status(&mut out, self);
        assert(out@ == container_status_bytes(self@));
        out
    }

    /// Reads a value from the front of `src`, and says how many bytes it took.
    /// Bytes behind it are left alone. `None` where `src` does not start with
    /// a value of this type.
    pub fn decode(src: &[u8]) -> (r: Option<(ContainerStatus, usize)>)
        ensures
            match parse_container_status(src@) {
                Some((status, used)) => r matches Some(got) && got.0@ == status && got.1 == used
                    && used <= src@.len(),
                None => r is None,
            },
    {
        assert(src@.skip(0) == src@);
        take_container_status(src, 0)
    }
}

impl OnlinePeople {
    /// The bytes that stand for this value on the wire.
    pub fn encode(&self) -> (bytes: Vec<u8>)
        ensures
            bytes@ == online_people_bytes(self@),
    {
        let mut out: Vec<u8> = Vec::new();
        put_online_people(&mut out, self);
        assert(out@ == online_people_bytes(self@));
        out
    }

    /// Reads a value from the front of `src`, and says how many bytes it took.
    /// Bytes behind it are left alone. `None` where `src` does not start with
    /// a value of this type.
    pub fn decode(src: &[u8]) -> (r: Option<(OnlinePeople, usize)>)
        ensures
            match parse_online_people(src@) {
                Some((online, used)) => r matches Some(got) && got.0@ == online && got.1 == used
                    && used <= src@.len(),
                None => r is None,
            },
    {
        assert(src@.skip(0) == src@);
        take_online_people(src, 0)
    }
}

impl ServerStatus {
    /// The bytes that stand for this snapshot on the wire.
    pub fn encode(&self) -> (bytes: Vec<u8>)
        ensures
            bytes@ == server_status_bytes(self@),
    {
        let mut out: Vec<u8> = Vec::new();
        put_server_status(&mut out, self);
        assert(out@ == server_status_bytes(self@));
        out
    }

    /// Reads a snapshot from the front of `src`, and says how many bytes it
    /// took. Bytes behind it are left alone. `None` where `src` does not start
    /// with a snapshot.
    pub fn decode(src: &[u8]) -> (r: Option<(ServerStatus, usize)>)
        ensures
            match parse_server_status(src@) {
                Some((status, used)) => r matches Some(got) && got.0@ == status && got.1 == used
                    && used <= src@.len(),
                None => r is None,
            },
    {
        assert(src@.skip(0) == src@);
        take_server_status(src, 0)
    }
}

impl Newspeak {
    /// The bytes of the frame that carries this message.
    pub fn encode(&self) -> (bytes: Vec<u8>)
        ensures
            bytes@ == newspeak_bytes(self@),
    {
        let mut out: Vec<u8> = Vec::new();
        match self {
            Newspeak::AuthResult(verdict) => {
                put_tag(&mut out, 0);
                put_auth_result(&mut out, *verdict);
            },
            Newspeak::ServerStatus(status) => {
                put_tag(&mut out, 1);
                put_server_status(&mut out, status);
            },
            Newspeak::Feedback(text) => {
                put_tag(&mut out, 2);
                put_text(&mut out, text.as_str());
            },
        }
        assert(out@ == newspeak_bytes(self@));
        out
    }

    /// Reads a message from the front of `src`, and says how many bytes it
    /// took. Bytes behind it are left alone. `None` where `src` does not start
    /// with a message.
    pub fn decode(src: &[u8]) -> (r: Option<(Newspeak, usize)>)
        ensures
            match parse_newspeak(src@) {
                Some((msg, used)) => r matches Some(got) && got.0@ == msg && got.1 == used
                    && used <= src@.len(),
                None => r is None,
            },
    {
        assert(src@.skip(0) == src@);
        match take_tag(src, 0) {
            Some((0, next)) => {
                match take_auth_result(src, next) {
                    Some((verdict, end)) => Some((Newspeak::AuthResult(verdict), end)),
                    None => None,
                }
            },
            Some((1, next)) => {
                match take_server_status(src, next) {
                    Some((status, end)) => Some((Newspeak::ServerStatus(status), end)),
                    None => None,
                }
            },
            Some((2, next)) => {
                match take_text(src, next) {
                    Some((text, end)) => Some((Newspeak::Feedback(text), end)),
                    None => None,
                }
            },
            _ => None,
        }
    }
}

/// Whether every text of `status` fits (see [`text_fits`]).
pub open spec fn container_status_fits(status: ContainerStatusView) -> bool {
    status matches ContainerStatusView::Up(text) ==> text_fits(text)
}

/// Whether every text of `online` fits (see [`text_fits`]).
pub open spec fn online_people_fits(online: OnlinePeopleView) -> bool {
    online matches OnlinePeopleView::Known(text) ==> text_fits(text)
}

/// Whether every text of `status` fits (see [`text_fits`]).
pub open spec fn server_status_fits(status: ServerStatusView) -> bool {
    &&& text_fits(status.host)
    &&& container_status_fits(status.container)
    &&& online_people_fits(status.online)
}

/// Whether every text of `msg` fits (see [`text_fits`]).
pub open spec fn newspeak_fits(msg: NewspeakView) -> bool {
    match msg {
        NewspeakView::AuthResult(_) => true,
        NewspeakView::ServerStatus(status) => server_status_fits(status),
        NewspeakView::Feedback(text) => text_fits(text),
    }
}

/// An integer of up to 64 bits that was written in variable-length form is
/// read back as it was, whatever follows it, and reading takes the bytes
/// that writing gave.
pub proof fn lemma_varint_round_trip_u64(value: u64, rest: Seq<u8>)
    ensures
        read_varint_u64(varint(value as nat) + rest) == Some(
            (value, varint(value as nat).len()),
        ),
{
    lemma_auto_spec_u16_to_from_le_bytes();
    lemma_auto_spec_u32_to_from_le_bytes();
    lemma_auto_spec_u64_to_from_le_bytes();
    let bytes = varint(value as nat) + rest;
    if value <= 250 {
    } else if value <= 0xffff {
        assert(bytes.subrange(1, 3) == spec_u16_to_le_bytes(value as u16));
    } else if value <= 0xffff_ffff {
        assert(bytes.subrange(1, 5) == spec_u32_to_le_bytes(value as u32));
    } else {
        assert(bytes.subrange(1, 9) == spec_u64_to_le_bytes(value));
    }
}

/// An integer of up to 32 bits that was written in variable-length form is
/// read back as it was, whatever follows it, and reading takes the bytes
/// that writing gave.
pub proof fn lemma_varint_round_trip_u32(value: u32, rest: Seq<u8>)
    ensures
        read_varint_u32(varint(value as nat) + rest) == Some(
            (value, varint(value as nat).len()),
        ),
{
    lemma_auto_spec_u16_to_from_le_bytes();
    lemma_auto_spec_u32_to_from_le_bytes();
    let bytes = varint(value as nat) + rest;
    if value <= 250 {
    } else if value <= 0xffff {
        assert(bytes.subrange(1, 3) == spec_u16_to_le_bytes(value as u16));
    } else {
        assert(bytes.subrange(1, 5) == spec_u32_to_le_bytes(value));
    }
}

/// A text that was written is read back as it was, whatever follows it, and
/// reading takes the bytes that writing gave.
pub proof fn lemma_text_round_trip(text: Seq<char>, rest: Seq<u8>)
    requires
        text_fits(text),
    ensures
        read_text(text_bytes(text) + rest) == Some((text, text_bytes(text).len())),
{
    let body = encode_utf8(text);
    let head = varint(body.len());
    let bytes = text_bytes(text) + rest;
    assert(bytes == head + (body + rest));
    lemma_varint_round_trip_u64(body.len() as u64, body + rest);
    assert(bytes.subrange(head.len() as int, (head.len() + body.len()) as int) == body);
    encode_utf8_valid_utf8(text);
    encode_utf8_decode_utf8(text);
}

/// A verdict that was written is read back as it was, whatever follows it.
pub proof fn lemma_auth_result_round_trip(verdict: AuthResult, rest: Seq<u8>)
    ensures
        parse_auth_result(auth_result_bytes(verdict) + rest) == Some(
            (verdict, auth_result_bytes(verdict).len()),
        ),
{
    match verdict {
        AuthResult::Goob => lemma_varint_round_trip_u32(0, rest),
        AuthResult::Sus => lemma_varint_round_trip_u32(1, rest),
    }
}

/// A command that was written is read back as it was, whatever follows it.
pub proof fn lemma_client_opt_round_trip(opt: ClientOpt, rest: Seq<u8>)
    ensures
        parse_client_opt(client_opt_bytes(opt) + rest) == Some((opt, client_opt_bytes(opt).len())),
{
    match opt {
        ClientOpt::On => lemma_varint_round_trip_u32(0, rest),
        ClientOpt::Off => lemma_varint_round_trip_u32(1, rest),
        ClientOpt::Reboot => lemma_varint_round_trip_u32(2, rest),
    }
}

/// A container status that was written is read back as it was, whatever
/// follows it.
pub proof fn lemma_container_status_round_trip(status: ContainerStatusView, rest: Seq<u8>)
    requires
        container_status_fits(status),
    ensures
        parse_container_status(container_status_bytes(status) + rest) == Some(
            (status, container_status_bytes(status).len()),
        ),
{
    match status {
        ContainerStatusView::Unknown => lemma_varint_round_trip_u32(0, rest),
        ContainerStatusView::NotUp => lemma_varint_round_trip_u32(1, rest),
        ContainerStatusView::Up(text) => {
            let bytes = container_status_bytes(status) + rest;
            assert(bytes == varint(2) + (text_bytes(text) + rest));
            lemma_varint_round_trip_u32(2, text_bytes(text) + rest);
            assert(bytes.skip(varint(2).len() as int) == text_bytes(text) + rest);
            lemma_text_round_trip(text, rest);
        },
    }
}

/// A roster that was written is read back as it was, whatever follows it.
pub proof fn lemma_online_people_round_trip(online: OnlinePeopleView, rest: Seq<u8>)
    requires
        online_people_fits(online),
    ensures
        parse_online_people(online_people_bytes(online) + rest) == Some(
            (online, online_people_bytes(online).len()),
        ),
{
    match online {
        OnlinePeopleView::Unknown => lemma_varint_round_trip_u32(0, rest),
        OnlinePeopleView::Known(text) => {
            let bytes = online_people_bytes(online) + rest;
            assert(bytes == varint(1) + (text_bytes(text) + rest));
            lemma_varint_round_trip_u32(1, text_bytes(text) + rest);
            assert(bytes.skip(varint(1).len() as int) == text_bytes(text) + rest);
            lemma_text_round_trip(text, rest);
        },
    }
}

/// A snapshot that was written is read back as it was, whatever follows it:
/// decoding what encoding gave yields an equal value.
pub proof fn lemma_server_status_round_trip(status: ServerStatusView, rest: Seq<u8>)
    requires
        server_status_fits(status),
    ensures
        parse_server_status(server_status_bytes(status) + rest) == Some(
            (status, server_status_bytes(status).len()),
        ),
{
    let host = text_bytes(status.host);
    let container = container_status_bytes(status.container);
    let online = online_people_bytes(status.online);
    let bytes = server_status_bytes(status) + rest;
    assert(bytes == host + (container + (online + rest)));
    lemma_text_round_trip(status.host, container + (online + rest));
    assert(bytes.skip(host.len() as int) == container + (online + rest));
    lemma_container_status_round_trip(status.container, online + rest);
    assert(bytes.skip((host.len() + container.len()) as int) == online + rest);
    lemma_online_people_round_trip(status.online, rest);
}

/// A message that was written is read back as it was, whatever follows it:
/// decoding what encoding gave yields an equal value.
pub proof fn lemma_newspeak_round_trip(msg: NewspeakView, rest: Seq<u8>)
    requires
        newspeak_fits(msg),
    ensures
        parse_newspeak(newspeak_bytes(msg) + rest) == Some((msg, newspeak_bytes(msg).len())),
{
    let bytes = newspeak_bytes(msg) + rest;
    match msg {
        NewspeakView::AuthResult(verdict) => {
            assert(bytes == varint(0) + (auth_result_bytes(verdict) + rest));
            lemma_varint_round_trip_u32(0, auth_result_bytes(verdict) + rest);
            assert(bytes.skip(varint(0).len() as int) == auth_result_bytes(verdict) + rest);
            lemma_auth_result_round_trip(verdict, rest);
        },
        NewspeakView::ServerStatus(status) => {
            assert(bytes == varint(1) + (server_status_bytes(status) + rest));
            lemma_varint_round_trip_u32(1, server_status_bytes(status) + rest);
            assert(bytes.skip(varint(1).len() as int) == server_status_bytes(status) + rest);
            lemma_server_status_round_trip(status, rest);
        },
        NewspeakView::Feedback(text) => {
            assert(bytes == varint(2) + (text_bytes(text) + rest));
            lemma_varint_round_trip_u32(2, text_bytes(text) + rest);
            assert(bytes.skip(varint(2).len() as int) == text_bytes(text) + rest);
            lemma_text_round_trip(text, rest);
        },
    }
}

} // verus!
