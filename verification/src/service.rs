//! The execution service's decisions: converting command arguments into
//! guest values, mapping a call's output, and building the statuses
//! published to the consumer.
//!
//! The worker thread, the queue and the guest invocation itself live
//! outside the library; they hand byte snapshots and plain values in and
//! out.

use vstd::prelude::*;

use vstd::string::StringSliceAdditionalSpecFns;
use vstd::utf8::encode_utf8;

use crate::aswasm::{ArgDesc, ArgType, EntryPoint, Output};
use crate::entrypoint::{dec_val, is_digit};
use crate::error::Error;
use crate::guestmem::{obj_bytes, obj_ok, str_of_obj};
use crate::hex::{hex_decodable, hex_decoded, hex_of};

verus! {

/// A host value ready to be materialised inside the guest: a string to
/// allocate as UTF-16, raw bytes to allocate, or a plain integer.
#[derive(Debug)]
pub enum GuestArg {
    Text(String),
    Bytes(Vec<u8>),
    I32(i32),
}

/// The digits of a signed decimal string, after its sign.
pub open spec fn i32_digits(s: Seq<char>) -> Seq<char> {
    if s.len() > 0 && (s[0] == '-' || s[0] == '+') {
        s.skip(1)
    } else {
        s
    }
}

/// Whether a string is a decimal 32-bit integer: an optional sign, one
/// or more digits, and a value in range.
pub open spec fn i32_str_ok(s: Seq<char>) -> bool {
    let t = i32_digits(s);
    &&& t.len() > 0
    &&& (forall|i: int| 0 <= i < t.len() ==> is_digit(#[trigger] t[i]))
    &&& (if s.len() > 0 && s[0] == '-' {
        dec_val(t) <= 0x8000_0000
    } else {
        dec_val(t) <= 0x7FFF_FFFF
    })
}

/// The value a decimal 32-bit integer string denotes.
pub open spec fn i32_str_val(s: Seq<char>) -> int {
    if s.len() > 0 && s[0] == '-' {
        -dec_val(i32_digits(s))
    } else {
        dec_val(i32_digits(s))
    }
}

/// Parses a signed decimal 32-bit integer; fails exactly on malformed
/// strings and on values out of range.
pub fn parse_i32(s: &str) -> (r: Result<i32, Error>)
    ensures
        r is Ok <==> i32_str_ok(s@),
        r matches Ok(v) ==> v == i32_str_val(s@),
        r matches Err(e) ==> e is ConfigInvalid,
{
    let n = s.unicode_len();
    let mut start: usize = 0;
    let mut neg = false;
    if n > 0 && s.get_char(0) == '-' {
        neg = true;
        start = 1;
    } else if n > 0 && s.get_char(0) == '+' {
        start = 1;
    }
    if start == n {
        return Err(Error::ConfigInvalid(String::from_str("invalid integer")));
    }
    let limit: u64 = if neg {
        0x8000_0000
    } else {
        0x7FFF_FFFF
    };
    let ghost digits = i32_digits(s@);
    proof {
        assert(digits =~= s@.skip(start as int));
    }
    let mut acc: u64 = 0;
    let mut i: usize = start;
    while i < n
        invariant
            n == s@.len(),
            start <= i <= n,
            start < n,
            digits == s@.skip(start as int),
            digits == i32_digits(s@),
            neg == (s@.len() > 0 && s@[0] == '-'),
            limit == (if neg {
                0x8000_0000u64
            } else {
                0x7FFF_FFFFu64
            }),
            forall|j: int| 0 <= j < i - start ==> is_digit(#[trigger] digits[j]),
            acc == dec_val(digits.take(i - start)),
            acc <= limit,
        decreases n - i,
    {
        let c = s.get_char(i);
        proof {
            assert(digits[i - start] == s@[i as int]);
        }
        if !('0' <= c && c <= '9') {
            return Err(Error::ConfigInvalid(String::from_str("invalid integer")));
        }
        let d: u64 = (c as u32 - '0' as u32) as u64;
        let wide: u128 = acc as u128 * 10 + d as u128;
        proof {
            assert(digits.take(i - start + 1).drop_last() =~= digits.take(i - start));
            assert(digits.take(i - start + 1).last() == digits[i - start]);
        }
        if wide > limit as u128 {
            proof {
                if forall|j: int| 0 <= j < digits.len() ==> is_digit(#[trigger] digits[j]) {
                    crate::entrypoint::lemma_dec_val_grows(digits, i - start + 1);
                } else {
                    let j = choose|j: int| 0 <= j < digits.len() && !is_digit(#[trigger] digits[j]);
                }
            }
            return Err(Error::ConfigInvalid(String::from_str("integer out of range")));
        }
        acc = wide as u64;
        i = i + 1;
    }
    proof {
        assert(digits.take(n - start) =~= digits);
    }
    if neg {
        if acc == 0x8000_0000 {
            Ok(i32::MIN)
        } else {
            Ok(-(acc as i32))
        }
    } else {
        Ok(acc as i32)
    }
}

/// Whether an argument string suits an argument type.
pub open spec fn arg_ok(at: ArgType, s: Seq<char>) -> bool {
    match at {
        ArgType::Text => true,
        ArgType::Bytes => hex_decodable(s),
        ArgType::I32 => i32_str_ok(s),
    }
}

/// Whether a guest value is the conversion of an argument string at an
/// argument type.
pub open spec fn is_conversion(at: ArgType, s: Seq<char>, g: GuestArg) -> bool {
    match at {
        ArgType::Text => g matches GuestArg::Text(t) && t@ == s,
        ArgType::Bytes => g matches GuestArg::Bytes(b) && b@ == hex_decoded(s),
        ArgType::I32 => g matches GuestArg::I32(v) && v == i32_str_val(s),
    }
}

/// Converts one argument string according to its typed descriptor:
/// strings pass through, bytes are hex-decoded, integers are parsed as
/// decimal.
pub fn convert_arg(desc: &ArgDesc, arg: &str) -> (r: Result<GuestArg, Error>)
    ensures
        r is Ok <==> arg_ok(desc.arg_type, arg@),
        r matches Ok(g) ==> is_conversion(desc.arg_type, arg@, g),
        r matches Err(e) ==> e is ConfigInvalid,
{
    match desc.arg_type {
        ArgType::Text => Ok(GuestArg::Text(String::from_str(arg))),
        ArgType::Bytes => match crate::hex::hex_to_bytes(arg) {
            Some(b) => Ok(GuestArg::Bytes(b)),
            None => Err(Error::ConfigInvalid(String::from_str("invalid hex argument"))),
        },
        ArgType::I32 => match parse_i32(arg) {
            Ok(v) => Ok(GuestArg::I32(v)),
            Err(e) => Err(e),
        },
    }
}

/// Converts the argument strings of a command against an entrypoint's
/// descriptors, pairwise; surplus strings or descriptors are ignored, as
/// the zip ends at the shorter side.
pub fn convert_args(ep: &EntryPoint, args: &Vec<String>) -> (r: Result<Vec<GuestArg>, Error>)
    ensures
        r is Ok <==> (forall|i: int|
            0 <= i < args@.len() && i < ep.args@.len() ==> arg_ok(
                (#[trigger] ep.args@[i]).arg_type,
                args@[i]@,
            )),
        r matches Ok(v) ==> {
            &&& v@.len() == (if args@.len() < ep.args@.len() {
                args@.len()
            } else {
                ep.args@.len()
            })
            &&& (forall|i: int|
                0 <= i < v@.len() ==> is_conversion(
                    (#[trigger] ep.args@[i]).arg_type,
                    args@[i]@,
                    v@[i],
                ))
        },
        r matches Err(e) ==> e is ConfigInvalid,
{
    let n = if args.len() < ep.args.len() {
        args.len()
    } else {
        ep.args.len()
    };
    let mut out: Vec<GuestArg> = Vec::new();
    let mut i: usize = 0;
    while i < n
        invariant
            n == (if args@.len() < ep.args@.len() {
                args@.len()
            } else {
                ep.args@.len()
            }),
            i <= n,
            out@.len() == i,
            forall|j: int|
                0 <= j < i ==> arg_ok((#[trigger] ep.args@[j]).arg_type, args@[j]@),
            forall|j: int|
                0 <= j < i ==> is_conversion((#[trigger] ep.args@[j]).arg_type, args@[j]@, out@[j]),
        decreases n - i,
    {
        match convert_arg(&ep.args[i], args[i].as_str()) {
            Ok(g) => {
                out.push(g);
            },
            Err(e) => {
                proof {
                    assert(!arg_ok(ep.args@[i as int].arg_type, args@[i as int]@));
                }
                return Err(e);
            },
        }
        i = i + 1;
    }
    Ok(out)
}

/// The exit code an output kind reports: the guest's own value for
/// `exit-code`, zero for every other kind.
pub fn output_exit_code(output: &Output, first_result: i32) -> (r: i32)
    ensures
        r == (if output is ExitCode {
            first_result
        } else {
            0i32
        }),
{
    match output {
        Output::ExitCode => first_result,
        _ => 0,
    }
}

/// What an output kind writes to the consumer's stdout, given the
/// guest's returned pointer: nothing for `exit-code` and `void`, the
/// buffer as hex for `bytes`, the decoded string for `string`.
pub fn output_text(mem: &[u8], output: &Output, ret_ptr: u32) -> (r: Result<Option<String>, Error>)
    ensures
        (output is ExitCode || output is Void) ==> (r matches Ok(o) && o is None),
        (output is Bytes || output is Text) ==> (r is Ok <==> obj_ok(mem@, ret_ptr as int)),
        output is Bytes ==> (r matches Ok(o) ==> (o matches Some(s) && s@ == hex_of(
            obj_bytes(mem@, ret_ptr as int),
        ))),
        output is Text ==> (r matches Ok(o) ==> (o matches Some(s) && s@ == str_of_obj(
            mem@,
            ret_ptr as int,
        ))),
        r matches Err(e) ==> e is GuestTrap,
{
    match output {
        Output::ExitCode => Ok(None),
        Output::Void => Ok(None),
        Output::Bytes => match crate::eth::bytes_to_hex_op(mem, ret_ptr) {
            Ok(s) => Ok(Some(s)),
            Err(e) => Err(e),
        },
        Output::Text => match crate::guestmem::decode_str(mem, ret_ptr) {
            Ok(s) => Ok(Some(s)),
            Err(e) => Err(e),
        },
    }
}

/// One status update published to the consumer.
#[derive(Debug)]
pub struct ProcessStatus {
    pub pid: u64,
    pub running: bool,
    pub return_code: i32,
    pub stdout: Vec<u8>,
    pub stderr: Vec<u8>,
}

/// The terminal status of a command: not running, with the guest's exit
/// code on success, or code 1 and a `Fatal:` diagnostic on failure.
pub fn terminal_status(pid: u64, outcome: Result<i32, String>) -> (r: ProcessStatus)
    ensures
        r.pid == pid,
        r.running == false,
        r.stdout@ == Seq::<u8>::empty(),
        outcome matches Ok(c) ==> r.return_code == c && r.stderr@ == Seq::<u8>::empty(),
        outcome matches Err(m) ==> r.return_code == 1 && r.stderr@ == encode_utf8(
            "Fatal: "@ + m@,
        ),
{
    match outcome {
        Ok(c) => ProcessStatus {
            pid,
            running: false,
            return_code: c,
            stdout: Vec::new(),
            stderr: Vec::new(),
        },
        Err(m) => {
            let mut msg = String::from_str("Fatal: ");
            msg.append(m.as_str());
            let stderr = msg.as_str().as_bytes_vec();
            ProcessStatus { pid, running: false, return_code: 1, stdout: Vec::new(), stderr }
        },
    }
}

} // verus!
