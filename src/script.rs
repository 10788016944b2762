//! Running the pull-request script: where it lives, what it is handed, and what
//! its exit means.
use vstd::prelude::*;
use vstd::string::StringExecFns;
use vstd::utf8::{decode_utf8, valid_utf8};

verus! {

/// The digits of `n` in base ten, most significant first.
pub open spec fn digits_of(n: nat) -> Seq<char>
    decreases n,
{
    if n < 10 {
        seq![(48 + n) as char]
    } else {
        digits_of(n / 10).push((48 + n % 10) as char)
    }
}

/// `n` in decimal, with a leading `-` when negative.
pub open spec fn decimal_of(n: int) -> Seq<char> {
    if n < 0 {
        seq!['-'] + digits_of((-n) as nat)
    } else {
        digits_of(n as nat)
    }
}

/// Relies on `i64`'s `ToString` (its `Display`): the decimal digits, with a
/// leading `-` for negative numbers.
#[verifier::external_body]
fn decimal(n: i64) -> (r: String)
    ensures
        r@ == decimal_of(n as int),
{
    n.to_string()
}

/// The text that `String::from_utf8_lossy` makes of a byte string.
pub uninterp spec fn lossy_text_of(b: Seq<u8>) -> Seq<char>;

/// Relies on `String::from_utf8_lossy`: valid UTF-8 is decoded as it is;
/// invalid sequences become U+FFFD.
#[verifier::external_body]
fn lossy_text(b: &[u8]) -> (r: String)
    ensures
        r@ == lossy_text_of(b@),
        valid_utf8(b@) ==> r@ == decode_utf8(b@),
{
    String::from_utf8_lossy(b).into_owned()
}

/// The program run where none is configured.
pub open spec fn default_script_path() -> Seq<char> {
    "./pr_script.sh"@
}

/// The program to run: the configured path, or `./pr_script.sh`.
pub fn script_path(configured: Option<String>) -> (r: String)
    ensures
        match configured {
            Some(p) => r == p,
            None => r@ == default_script_path(),
        },
{
    match configured {
        Some(p) => p,
        None => String::from_str("./pr_script.sh"),
    }
}

/// The script's positional arguments: the pull request's number in decimal,
/// its title and its URL.
pub fn script_arguments(number: i64, title: &str, url: &str) -> (r: Vec<String>)
    ensures
        r@.len() == 3,
        r@[0]@ == decimal_of(number as int),
        r@[1]@ == title@,
        r@[2]@ == url@,
{
    let mut args: Vec<String> = Vec::new();
    args.push(decimal(number));
    args.push(String::from_str(title));
    args.push(String::from_str(url));
    args
}

/// What a finished run of the script gives: on a zero exit its standard
/// output, unchanged; otherwise its standard error, as the failure's detail.
pub fn script_outcome(success: bool, stdout: &[u8], stderr: &[u8]) -> (r: Result<String, String>)
    ensures
        success ==> (r matches Ok(out) && out@ == lossy_text_of(stdout@)),
        !success ==> (r matches Err(detail) && detail@ == lossy_text_of(stderr@)),
{
    if success {
        Ok(lossy_text(stdout))
    } else {
        Err(lossy_text(stderr))
    }
}

} // verus!
