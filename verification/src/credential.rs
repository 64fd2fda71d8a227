use vstd::prelude::*;
use vstd::string::StringExecFns;

verus! {

/// What `str::to_lowercase` returns for a given text; the result depends on
/// the characters alone.
pub uninterp spec fn lower_of(s: Seq<char>) -> Seq<char>;

/// The lowercase hexadecimal rendering of the 128-bit digest of the UTF-8
/// bytes of a text; the result depends on the text alone.
pub uninterp spec fn md5_hex_of(s: Seq<char>) -> Seq<char>;

/// Relies on `str::to_lowercase`: the result is a function of the
/// characters alone.
#[verifier::external_body]
fn lowercase(s: &str) -> (r: String)
    ensures
        r@ == lower_of(s@),
{
    s.to_lowercase()
}

/// Whether a character is a lowercase hexadecimal digit.
pub open spec fn is_lower_hex_digit(c: char) -> bool {
    ('0' <= c && c <= '9') || ('a' <= c && c <= 'f')
}

/// Relies on `md5::compute` and its digest's `LowerHex` rendering: two
/// lowercase hex digits for each of the sixteen digest bytes, a function
/// of the input text alone.
#[verifier::external_body]
fn md5_hex(s: &str) -> (r: String)
    ensures
        r@ == md5_hex_of(s@),
        r@.len() == 32,
        forall|i: int| 0 <= i < r@.len() ==> is_lower_hex_digit(#[trigger] r@[i]),
{
    format!("{:x}", md5::compute(s.as_bytes()))
}

/// The exact digest input the device firmware expects: lowercase serial
/// number and MAC address and the literal password, interleaved with the
/// fixed separators and the vendor-magic suffix.
pub open spec fn credential_input(
    sn_lower: Seq<char>,
    mac_lower: Seq<char>,
    password: Seq<char>,
) -> Seq<char> {
    "sn="@ + sn_lower + "--ethaddr="@ + mac_lower + "--usrpwd="@ + password
        + "\n--H3C.MAGIC.ZH"@
}

/// The credential for a device identity and a password: the digest of the
/// fixed-format input built from the case-folded serial number and MAC
/// address and the password as given.
pub open spec fn spec_credential(sn: Seq<char>, mac: Seq<char>, password: Seq<char>) -> Seq<char> {
    md5_hex_of(credential_input(lower_of(sn), lower_of(mac), password))
}

/// Derives the one-time credential from the device's serial number and MAC
/// address and the operator's password: a 32-character hex digest string.
pub fn derive_credential(sn: &str, mac: &str, password: &str) -> (r: String)
    ensures
        r@ == spec_credential(sn@, mac@, password@),
        r@.len() == 32,
        forall|i: int| 0 <= i < r@.len() ==> is_lower_hex_digit(#[trigger] r@[i]),
{
    let sn_lower = lowercase(sn);
    let mac_lower = lowercase(mac);
    let mut input = String::from_str("sn=");
    input.append(sn_lower.as_str());
    input.append("--ethaddr=");
    input.append(mac_lower.as_str());
    input.append("--usrpwd=");
    input.append(password);
    input.append("\n--H3C.MAGIC.ZH");
    proof {
        assert(input@ =~= credential_input(lower_of(sn@), lower_of(mac@), password@));
    }
    md5_hex(input.as_str())
}

/// Law: credential derivation is a pure function of the serial number, the
/// MAC address and the password: equal inputs give equal credentials.
pub proof fn lemma_credential_deterministic(
    sn1: Seq<char>,
    mac1: Seq<char>,
    pw1: Seq<char>,
    sn2: Seq<char>,
    mac2: Seq<char>,
    pw2: Seq<char>,
)
    requires
        sn1 == sn2,
        mac1 == mac2,
        pw1 == pw2,
    ensures
        spec_credential(sn1, mac1, pw1) == spec_credential(sn2, mac2, pw2),
{
}

} // verus!
