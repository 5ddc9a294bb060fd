use crate::text::{form_query, hex_of, lemma_form_query_injective, lemma_hex_len};
use hmac::{Hmac, Mac, NewMac};
use sha2::Sha512;
use vstd::prelude::*;

verus! {

/// An ordered list of request parameters, as name/value pairs.
pub type Query = Vec<(String, String)>;

/// The path of the trade API version that every signature covers.
pub const API_VERSION_PATH: &'static str = "/tapi/v3/";

/// A parameter list as a sequence of name/value strings.
pub open spec fn query_view(q: Query) -> Seq<(Seq<char>, Seq<char>)> {
    q@.map_values(|p: (String, String)| (p.0@, p.1@))
}

/// The text that a request's signature covers: the API version path, `?`, and
/// the parameters in form encoding, in their order.
pub open spec fn signing_input(q: Seq<(Seq<char>, Seq<char>)>) -> Seq<char> {
    API_VERSION_PATH@ + seq!['?'] + form_query(q)
}

/// The 64-byte HMAC-SHA-512 tag of `message` under `key` (both taken as UTF-8).
pub uninterp spec fn hmac_sha512_of(key: Seq<char>, message: Seq<char>) -> Seq<u8>;

/// The signature of a parameter list under an account secret: the
/// HMAC-SHA-512 tag of the signing input, in lowercase hexadecimal.
pub open spec fn signature_of(secret: Seq<char>, q: Seq<(Seq<char>, Seq<char>)>) -> Seq<char> {
    hex_of(hmac_sha512_of(secret, signing_input(q)))
}

/// Relies on serde_urlencoded::to_string, which writes a sequence of string
/// pairs through form_urlencoded's `append_pair`: `name=value` for each pair, in
/// order, joined by `&`, each byte of UTF-8 encoded by `byte_serialize`. It fails
/// only on values that are not pairs of strings.
#[verifier::external_body]
fn form_encode(params: &Query) -> (r: String)
    ensures
        r@ == form_query(query_view(*params)),
{
    serde_urlencoded::to_string(params).expect("string pairs always encode")
}

/// Relies on hmac's `Hmac<Sha512>`: `new_varkey` accepts a key of any length
/// (a longer one is hashed first), and the tag is 64 bytes that depend on the
/// key's and the message's bytes alone.
#[verifier::external_body]
fn hmac_sha512(key: &str, message: &str) -> (r: Vec<u8>)
    ensures
        r@ == hmac_sha512_of(key@, message@),
        r@.len() == 64,
{
    let mut mac = Hmac::<Sha512>::new_varkey(key.as_bytes()).expect("any key length");
    mac.update(message.as_bytes());
    mac.finalize().into_bytes().to_vec()
}

/// Relies on hex::encode: two lowercase digits for each byte, high digit first.
#[verifier::external_body]
fn to_hex(bytes: &Vec<u8>) -> (r: String)
    ensures
        r@ == hex_of(bytes@),
{
    hex::encode(bytes)
}

/// Builds the text that the signature of `params` covers.
pub fn signing_message(params: &Query) -> (r: String)
    ensures
        r@ == signing_input(query_view(*params)),
{
    let mut s = String::from_str(API_VERSION_PATH);
    s.append("?");
    proof {
        reveal_strlit("?");
    }
    let encoded = form_encode(params);
    s.append(encoded.as_str());
    s
}

/// Signs `params` with an account secret.
pub fn sign_query(secret: &str, params: &Query) -> (r: String)
    ensures
        r@ == signature_of(secret@, query_view(*params)),
        r@.len() == 128,
{
    let message = signing_message(params);
    let tag = hmac_sha512(secret, message.as_str());
    proof {
        lemma_hex_len(tag@);
    }
    to_hex(&tag)
}

/// A signature is a function of the secret and the parameter list alone:
/// two signings of equal parameter lists under equal secrets agree.
pub proof fn lemma_signature_deterministic(secret: Seq<char>, a: Query, b: Query)
    requires
        query_view(a) == query_view(b),
    ensures
        signature_of(secret, query_view(a)) == signature_of(secret, query_view(b)),
{
}

/// Distinct parameter lists are signed over distinct texts: changing a name or a
/// value, adding or removing a pair, or reordering the pairs changes the text
/// that the signature covers.
pub proof fn lemma_signing_input_injective(
    a: Seq<(Seq<char>, Seq<char>)>,
    b: Seq<(Seq<char>, Seq<char>)>,
)
    requires
        signing_input(a) == signing_input(b),
    ensures
        a == b,
{
    let prefix = API_VERSION_PATH@ + seq!['?'];
    let n = prefix.len() as int;
    assert(form_query(a) =~= signing_input(a).subrange(n, signing_input(a).len() as int));
    assert(form_query(b) =~= signing_input(b).subrange(n, signing_input(b).len() as int));
    lemma_form_query_injective(a, b);
}

} // verus!
