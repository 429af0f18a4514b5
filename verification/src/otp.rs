//! The one-time code for a secret and a counter, and the line it is shown
//! in. The code itself is computed by `libreauth`.

use vstd::prelude::*;
use vstd::string::StringExecFns;

verus! {

/// The code that `libreauth` generates for a secret given as ASCII text
/// and a counter, with its default settings: HMAC-SHA1, six decimal digits.
pub uninterp spec fn hotp(secret: Seq<char>, counter: u64) -> Seq<char>;

/// Whether `code` has the form of a code: six decimal digits.
pub open spec fn is_code(code: Seq<char>) -> bool {
    &&& code.len() == 6
    &&& forall|i: int| 0 <= i < 6 ==> 0x30 <= (#[trigger] code[i]) as u32 <= 0x39
}

/// Builds a generator with `libreauth::oath::HOTPBuilder` (`new`,
/// `ascii_key`, `counter`, `finalize`) and calls `HOTP::generate` on it.
///
/// Assumed: the code depends on the secret and the counter alone and is
/// six decimal digits, and the builder does not refuse: a key is set, no
/// key decoding is involved, and the default length and base are within
/// its limits.
#[verifier::external_body]
pub(crate) fn generate_code(secret: &str, counter: u64) -> (r: Option<String>)
    ensures
        match r {
            Some(code) => code@ == hotp(secret@, counter) && is_code(code@),
            None => false,
        },
{
    match libreauth::oath::HOTPBuilder::new().ascii_key(secret).counter(counter).finalize() {
        Ok(generator) => Some(generator.generate()),
        Err(_) => None,
    }
}

/// The line that shows a code: the PIN, a comma, the code.
pub open spec fn issued_line(pin: Seq<char>, code: Seq<char>) -> Seq<char> {
    pin + seq![','] + code
}

/// The code for `secret` at `counter`: six decimal digits.
pub fn code_for(secret: &str, counter: u64) -> (code: String)
    ensures
        code@ == hotp(secret@, counter),
        is_code(code@),
{
    generate_code(secret, counter).unwrap()
}

/// The line to show for a code.
pub fn output_line(pin: &str, code: &str) -> (line: String)
    ensures
        line@ == issued_line(pin@, code@),
{
    let mut line = String::from_str(pin);
    line.append(",");
    line.append(code);
    proof {
        reveal_strlit(",");
        assert(","@ =~= seq![',']);
    }
    line
}

} // verus!
