//! Reading messages of the bus.
use vstd::prelude::*;

verus! {

/// A message of the bus, as the bus library keeps it: header, body bytes and signature.
#[verifier::external_type_specification]
#[verifier::external_body]
pub struct ExMessage(zbus::Message);

/// One output region: width, height, x offset, y offset.
pub type Zone = (u32, u32, i32, i32);

/// The member that the header of a message names: a method or a signal.
pub uninterp spec fn message_member(message: zbus::Message) -> Option<Seq<char>>;

/// The body of a message read as one string; `None` if it cannot be read so.
pub uninterp spec fn string_body(message: zbus::Message) -> Option<Seq<char>>;

/// The body of a message read as a zone set and its zones; `None` if it cannot be read so.
pub uninterp spec fn zones_body(message: zbus::Message) -> Option<(u32, Seq<Zone>)>;

/// The body of a message read as a string and an unsigned integer; `None` if it cannot be
/// read so.
pub uninterp spec fn string_and_u32_body(message: zbus::Message) -> Option<(Seq<char>, u32)>;

/// The body of a message read as a structure of one string; `None` if it cannot be read so.
pub uninterp spec fn string_structure_body(message: zbus::Message) -> Option<Seq<char>>;

/// Calls `Message::header` and `Header::member` of zbus: the member field of the header, if
/// the message carries one. The name is a function of the message alone.
#[verifier::external_body]
pub(crate) fn member_of(message: &zbus::Message) -> (res: Option<String>)
    ensures
        match res {
            Some(name) => message_member(*message) == Some(name@),
            None => message_member(*message) is None,
        },
{
    message.header().member().map(|name| name.as_str().to_string())
}

/// Calls `Body::deserialize::<String>` of zbus on the body of the message. It is an error
/// if the signature of the body is not that of a string or the bytes do not encode one; it
/// depends on the message alone.
#[verifier::external_body]
pub(crate) fn read_string(message: &zbus::Message) -> (res: Option<String>)
    ensures
        match res {
            Some(text) => string_body(*message) == Some(text@),
            None => string_body(*message) is None,
        },
{
    message.body().deserialize::<String>().ok()
}

/// Calls `Body::deserialize::<(u32, Vec<(u32, u32, i32, i32)>)>` of zbus on the body of the
/// message. It is an error if the signature of the body differs or the bytes do not encode
/// such a value; it depends on the message alone.
#[verifier::external_body]
pub(crate) fn read_zones(message: &zbus::Message) -> (res: Option<(u32, Vec<Zone>)>)
    ensures
        match res {
            Some((zone_set, zones)) => zones_body(*message) == Some((zone_set, zones@)),
            None => zones_body(*message) is None,
        },
{
    message.body().deserialize::<(u32, Vec<(u32, u32, i32, i32)>)>().ok()
}

/// Calls `Body::deserialize::<(String, u32)>` of zbus on the body of the message. It is an
/// error if the signature of the body differs or the bytes do not encode such a value; it
/// depends on the message alone.
#[verifier::external_body]
pub(crate) fn read_string_and_u32(message: &zbus::Message) -> (res: Option<(String, u32)>)
    ensures
        match res {
            Some((text, number)) => string_and_u32_body(*message) == Some((text@, number)),
            None => string_and_u32_body(*message) is None,
        },
{
    message.body().deserialize::<(String, u32)>().ok()
}

/// Calls `Body::deserialize::<(String,)>` of zbus on the body of the message. It accepts a
/// body that is one string or a structure of one string, and is an error on any other; it
/// depends on the message alone.
#[verifier::external_body]
pub(crate) fn read_string_structure(message: &zbus::Message) -> (res: Option<String>)
    ensures
        match res {
            Some(text) => string_structure_body(*message) == Some(text@),
            None => string_structure_body(*message) is None,
        },
{
    message.body().deserialize::<(String,)>().ok().map(|body| body.0)
}

} // verus!
