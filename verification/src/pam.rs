//! The client side of the authentication protocol: the module's arguments,
//! the request line, and what a reply line means.

use vstd::prelude::*;
use vstd::string::*;
use crate::text::{
    str_eq, find_char, parse_u64, index_of, decimal_value, decimal_digits, is_digit,
    lemma_decimal_digits, lemma_index_of_first,
};
use crate::dispatch::error_line_spec;

verus! {

/// Attempts that one authentication may make.
pub const MAX_TRIES: u32 = 2;

/// Pause between two attempts: whole seconds.
pub const PAUSE_SECS: u64 = 2;

/// Pause between two attempts: nanoseconds on top of the seconds.
pub const PAUSE_NANOS: u32 = 500;

/// The type that the service module is implemented on.
pub struct Webnis;

/// The arguments that the module's configuration line may hold.
#[allow(non_camel_case_types)]
#[derive(Clone, Copy, PartialEq, Eq, Structural, Debug)]
pub enum PamArgs {
    DEBUG,
    USE_FIRST_PASS,
}

/// Why an authentication failed.
#[derive(Clone, Copy, PartialEq, Eq, Structural, Debug)]
pub enum AuthFailure {
    /// The user is not authenticated: a final answer.
    AuthErr,
    /// The service could not be asked.
    AuthInfoUnavail,
}

/// The kinds of I/O error that a try at the proxy's socket may end in.
#[derive(Clone, Copy, PartialEq, Eq, Structural, Debug)]
pub enum IoFailure {
    TimedOut,
    Interrupted,
    Other,
}

/// What follows an attempt.
#[derive(Clone, Copy, PartialEq, Eq, Debug)]
pub enum AuthStep {
    Done(Result<(), AuthFailure>),
    /// Pause, then try once more.
    Pause,
}

/// Some argument is `word`.
pub open spec fn names(args: Seq<String>, word: Seq<char>) -> bool {
    exists|i: int| 0 <= i < args.len() && (#[trigger] args[i])@ == word
}

/// The flags that a list of arguments sets: the bit of each argument that it
/// names, and no other.
pub open spec fn flags_of(args: Seq<String>) -> u32 {
    (if names(args, "debug"@) {
        PamArgs::DEBUG.bit_spec()
    } else {
        0u32
    }) | (if names(args, "use_first_pass"@) {
        PamArgs::USE_FIRST_PASS.bit_spec()
    } else {
        0u32
    })
}

impl PamArgs {
    pub open spec fn bit_spec(self) -> u32 {
        match self {
            PamArgs::DEBUG => 1,
            PamArgs::USE_FIRST_PASS => 2,
        }
    }

    /// The flag bit of the argument.
    pub fn bit(self) -> (r: u32)
        ensures
            r == self.bit_spec(),
    {
        match self {
            PamArgs::DEBUG => 1,
            PamArgs::USE_FIRST_PASS => 2,
        }
    }

    /// The flags hold the argument's bit.
    pub fn is_set(self, flags: u32) -> (r: bool)
        ensures
            r == (flags & self.bit_spec() != 0),
    {
        (flags & self.bit()) != 0
    }

    /// Reads the module's arguments into flags. Unknown arguments are passed
    /// over.
    pub fn parse(args: &Vec<String>) -> (a: u32)
        ensures
            a == flags_of(args@),
    {
        let mut debug = false;
        let mut first_pass = false;
        let mut i: usize = 0;
        while i < args.len()
            invariant
                i <= args@.len(),
                debug == names(args@.subrange(0, i as int), "debug"@),
                first_pass == names(args@.subrange(0, i as int), "use_first_pass"@),
            decreases args@.len() - i,
        {
            let ghost before = args@.subrange(0, i as int);
            let ghost after = args@.subrange(0, i + 1);
            let is_debug = str_eq(args[i].as_str(), "debug");
            let is_first = str_eq(args[i].as_str(), "use_first_pass");
            proof {
                lemma_names_push(before, args@[i as int], "debug"@);
                lemma_names_push(before, args@[i as int], "use_first_pass"@);
                assert(after =~= before.push(args@[i as int]));
            }
            if is_debug {
                debug = true;
            }
            if is_first {
                first_pass = true;
            }
            i += 1;
        }
        proof {
            assert(args@.subrange(0, i as int) =~= args@);
        }
        (if debug {
            PamArgs::DEBUG.bit()
        } else {
            0u32
        }) | (if first_pass {
            PamArgs::USE_FIRST_PASS.bit()
        } else {
            0u32
        })
    }
}

proof fn lemma_names_push(args: Seq<String>, last: String, word: Seq<char>)
    ensures
        names(args.push(last), word) == (names(args, word) || last@ == word),
{
    let more = args.push(last);
    if names(args, word) {
        let i = choose|i: int| 0 <= i < args.len() && (#[trigger] args[i])@ == word;
        assert(more[i]@ == word);
    }
    if last@ == word {
        assert(more[args.len() as int]@ == word);
    }
    if names(more, word) {
        let i = choose|i: int| 0 <= i < more.len() && (#[trigger] more[i])@ == word;
        if i < args.len() {
            assert(args[i]@ == word);
        }
    }
}

/// An argument's bit is set in the flags of a list exactly when the list
/// names the argument, and no other bit is set.
pub proof fn law_flags_tell_arguments(args: Seq<String>)
    ensures
        (flags_of(args) & PamArgs::DEBUG.bit_spec() != 0) == names(args, "debug"@),
        (flags_of(args) & PamArgs::USE_FIRST_PASS.bit_spec() != 0) == names(
            args,
            "use_first_pass"@,
        ),
        flags_of(args) <= 3,
{
    assert((0u32 | 0u32) == 0 && (1u32 | 0u32) == 1 && (0u32 | 2u32) == 2 && (1u32 | 2u32) == 3)
        by (bit_vector);
    assert(0u32 & 1u32 == 0 && 1u32 & 1u32 != 0 && 2u32 & 1u32 == 0 && 3u32 & 1u32 != 0)
        by (bit_vector);
    assert(0u32 & 2u32 == 0 && 1u32 & 2u32 == 0 && 2u32 & 2u32 != 0 && 3u32 & 2u32 != 0)
        by (bit_vector);
}

/// The bytes of `auth `.
pub open spec fn auth_prefix() -> Seq<u8> {
    seq![97u8, 117u8, 116u8, 104u8, 32u8]
}

/// The request line: `auth`, the user, the password, each after one space,
/// and a newline.
pub open spec fn auth_request_spec(user: Seq<u8>, pass: Seq<u8>) -> Seq<u8> {
    auth_prefix() + user + seq![32u8] + pass + seq![10u8]
}

fn append_bytes(dst: &mut Vec<u8>, src: &[u8])
    ensures
        final(dst)@ == old(dst)@ + src@,
{
    let mut i: usize = 0;
    while i < src.len()
        invariant
            i <= src@.len(),
            dst@ == old(dst)@ + src@.subrange(0, i as int),
        decreases src@.len() - i,
    {
        dst.push(src[i]);
        proof {
            assert(dst@ =~= old(dst)@ + src@.subrange(0, i + 1));
        }
        i += 1;
    }
    proof {
        assert(src@.subrange(0, i as int) =~= src@);
    }
}

/// Builds the request line that asks the proxy to authenticate a user.
pub fn auth_request(user: &str, pass: &[u8]) -> (r: Vec<u8>)
    ensures
        r@ == auth_request_spec(user.spec_bytes(), pass@),
{
    let mut b: Vec<u8> = Vec::new();
    b.push(97u8);
    b.push(117u8);
    b.push(116u8);
    b.push(104u8);
    b.push(32u8);
    proof {
        assert(b@ =~= auth_prefix());
    }
    append_bytes(&mut b, user.as_bytes());
    b.push(32u8);
    proof {
        assert(b@ =~= auth_prefix() + user.spec_bytes() + seq![32u8]);
    }
    append_bytes(&mut b, pass);
    b.push(10u8);
    proof {
        assert(b@ =~= auth_request_spec(user.spec_bytes(), pass@));
    }
    b
}

/// The code at the head of a reply line: what stands before the first space,
/// read as a decimal number of 16 bits.
pub open spec fn reply_code_spec(line: Seq<char>) -> Option<u16> {
    match decimal_value(line.subrange(0, index_of(line, ' ', 0))) {
        Some(v) => if v <= u16::MAX {
            Some(v as u16)
        } else {
            None
        },
        None => None,
    }
}

/// What a code means: 200 to 299 is success; 401, 403 and 404 are a final
/// refusal; with any other code the service is unavailable.
pub open spec fn code_verdict(code: u16) -> Result<(), AuthFailure> {
    if 200 <= code <= 299 {
        Ok(())
    } else if code == 401 || code == 403 || code == 404 {
        Err(AuthFailure::AuthErr)
    } else {
        Err(AuthFailure::AuthInfoUnavail)
    }
}

/// What a reply line means. A line without a code leaves the service
/// unavailable.
pub open spec fn reply_verdict_spec(line: Seq<char>) -> Result<(), AuthFailure> {
    match reply_code_spec(line) {
        Some(code) => code_verdict(code),
        None => Err(AuthFailure::AuthInfoUnavail),
    }
}

/// Reads the code at the head of a reply line.
pub fn reply_code(line: &str) -> (r: Option<u16>)
    ensures
        r == reply_code_spec(line@),
{
    let end = find_char(line, ' ', 0);
    match parse_u64(line.substring_char(0, end)) {
        Some(v) => if v <= 65535 {
            Some(v as u16)
        } else {
            None
        },
        None => None,
    }
}

/// Decodes the reply line of the proxy.
pub fn reply_verdict(line: &str) -> (r: Result<(), AuthFailure>)
    ensures
        r == reply_verdict_spec(line@),
{
    match reply_code(line) {
        None => Err(AuthFailure::AuthInfoUnavail),
        Some(code) => {
            if 200 <= code && code <= 299 {
                Ok(())
            } else if code == 401 || code == 403 || code == 404 {
                Err(AuthFailure::AuthErr)
            } else {
                Err(AuthFailure::AuthInfoUnavail)
            }
        },
    }
}

/// The code of an error line, read back, is the status that it was written
/// with.
pub proof fn law_error_line_is_decoded(status: u16, message: Seq<char>)
    ensures
        reply_code_spec(error_line_spec(status, message)) == Some(status),
        reply_verdict_spec(error_line_spec(status, message)) == code_verdict(status),
{
    reveal_strlit(" ");
    let digits = decimal_digits(status as nat);
    let line = error_line_spec(status, message);
    lemma_decimal_digits(status as nat);
    assert(line =~= digits + seq![' '] + message);
    assert forall|j: int| 0 <= j < digits.len() implies line[j] != ' ' by {
        assert(line[j] == digits[j]);
        assert(is_digit(digits[j]));
    }
    lemma_index_of_first(line, ' ', 0, digits.len() as int);
    assert(line.subrange(0, digits.len() as int) =~= digits);
    assert(is_digit(digits[0]));
}

/// An I/O error on the way to the proxy, whatever its kind, leaves the
/// service unavailable: it is no refusal of the user.
pub fn from_io_error(kind: IoFailure) -> (r: AuthFailure)
    ensures
        r == AuthFailure::AuthInfoUnavail,
{
    match kind {
        IoFailure::TimedOut => AuthFailure::AuthInfoUnavail,
        IoFailure::Interrupted => AuthFailure::AuthInfoUnavail,
        IoFailure::Other => AuthFailure::AuthInfoUnavail,
    }
}

/// The step after attempt number `tries`, counted from 0: success and a
/// final refusal end the authentication; an unavailable service is tried
/// again after a pause while an attempt is left, and reported after the last.
pub open spec fn step_after(tries: u32, outcome: Result<(), AuthFailure>) -> AuthStep {
    match outcome {
        Ok(()) => AuthStep::Done(Ok(())),
        Err(AuthFailure::AuthErr) => AuthStep::Done(Err(AuthFailure::AuthErr)),
        Err(AuthFailure::AuthInfoUnavail) => if tries + 1 < MAX_TRIES {
            AuthStep::Pause
        } else {
            AuthStep::Done(Err(AuthFailure::AuthInfoUnavail))
        },
    }
}

/// Decides what follows an attempt.
pub fn after_try(tries: u32, outcome: Result<(), AuthFailure>) -> (r: AuthStep)
    ensures
        r == step_after(tries, outcome),
{
    match outcome {
        Ok(()) => AuthStep::Done(Ok(())),
        Err(AuthFailure::AuthErr) => AuthStep::Done(Err(AuthFailure::AuthErr)),
        Err(AuthFailure::AuthInfoUnavail) => {
            if tries < MAX_TRIES - 1 {
                AuthStep::Pause
            } else {
                AuthStep::Done(Err(AuthFailure::AuthInfoUnavail))
            }
        },
    }
}

/// A final refusal is never tried again, and no authentication goes past its
/// last attempt.
pub proof fn law_refusal_is_final(tries: u32, outcome: Result<(), AuthFailure>)
    ensures
        step_after(tries, Err(AuthFailure::AuthErr)) == AuthStep::Done(Err(AuthFailure::AuthErr)),
        tries + 1 >= MAX_TRIES ==> step_after(tries, outcome) is Done,
{
}

} // verus!
