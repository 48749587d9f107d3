//! Construction of JSON-RPC 2.0 request envelopes.
//!
//! Each outbound call posts a fresh envelope `{jsonrpc, method, params, id}`
//! with the id fixed to 1; the address travels inside a JSON string literal,
//! so it is escaped exactly as JSON encoding requires.

use vstd::prelude::*;
use vstd::string::StrSliceExecFns;
use vstd::string::StringExecFns;

verus! {

/// The hex digit character for `d` (below 16), lower case.
pub open spec fn hex_char_of(d: nat) -> char {
    if d == 0 {
        '0'
    } else if d == 1 {
        '1'
    } else if d == 2 {
        '2'
    } else if d == 3 {
        '3'
    } else if d == 4 {
        '4'
    } else if d == 5 {
        '5'
    } else if d == 6 {
        '6'
    } else if d == 7 {
        '7'
    } else if d == 8 {
        '8'
    } else if d == 9 {
        '9'
    } else if d == 10 {
        'a'
    } else if d == 11 {
        'b'
    } else if d == 12 {
        'c'
    } else if d == 13 {
        'd'
    } else if d == 14 {
        'e'
    } else {
        'f'
    }
}

/// How JSON encoding escapes one character inside a string literal: the
/// quote, the backslash, the five short control escapes, `\u00XX` for the
/// remaining control characters, and every other character unchanged.
pub open spec fn escape_char(c: char) -> Seq<char> {
    let n = c as u32;
    if n == 0x22 {
        seq!['\\', '"']
    } else if n == 0x5c {
        seq!['\\', '\\']
    } else if n == 0x08 {
        seq!['\\', 'b']
    } else if n == 0x09 {
        seq!['\\', 't']
    } else if n == 0x0a {
        seq!['\\', 'n']
    } else if n == 0x0c {
        seq!['\\', 'f']
    } else if n == 0x0d {
        seq!['\\', 'r']
    } else if n < 0x20 {
        seq!['\\', 'u', '0', '0', hex_char_of((n / 16) as nat), hex_char_of((n % 16) as nat)]
    } else {
        seq![c]
    }
}

/// The body of a JSON string literal encoding `s`.
pub open spec fn json_escaped(s: Seq<char>) -> Seq<char>
    decreases s.len(),
{
    if s.len() == 0 {
        Seq::empty()
    } else {
        json_escaped(s.drop_last()) + escape_char(s.last())
    }
}

proof fn lemma_json_escaped_step(s: Seq<char>, i: int)
    requires
        0 <= i < s.len(),
    ensures
        json_escaped(s.take(i + 1)) == json_escaped(s.take(i)) + escape_char(s[i]),
{
    assert(s.take(i + 1).drop_last() =~= s.take(i));
    assert(s.take(i + 1).last() == s[i]);
}

/// The one-character string holding the lower-case hex digit for `d`.
fn hex_char_str(d: u8) -> (r: &'static str)
    requires
        d < 16,
    ensures
        r@ == seq![hex_char_of(d as nat)],
{
    if d == 0 {
        proof {
            reveal_strlit("0");
            assert("0"@ =~= seq![hex_char_of(0)]);
        }
        "0"
    } else if d == 1 {
        proof {
            reveal_strlit("1");
            assert("1"@ =~= seq![hex_char_of(1)]);
        }
        "1"
    } else if d == 2 {
        proof {
            reveal_strlit("2");
            assert("2"@ =~= seq![hex_char_of(2)]);
        }
        "2"
    } else if d == 3 {
        proof {
            reveal_strlit("3");
            assert("3"@ =~= seq![hex_char_of(3)]);
        }
        "3"
    } else if d == 4 {
        proof {
            reveal_strlit("4");
            assert("4"@ =~= seq![hex_char_of(4)]);
        }
        "4"
    } else if d == 5 {
        proof {
            reveal_strlit("5");
            assert("5"@ =~= seq![hex_char_of(5)]);
        }
        "5"
    } else if d == 6 {
        proof {
            reveal_strlit("6");
            assert("6"@ =~= seq![hex_char_of(6)]);
        }
        "6"
    } else if d == 7 {
        proof {
            reveal_strlit("7");
            assert("7"@ =~= seq![hex_char_of(7)]);
        }
        "7"
    } else if d == 8 {
        proof {
            reveal_strlit("8");
            assert("8"@ =~= seq![hex_char_of(8)]);
        }
        "8"
    } else if d == 9 {
        proof {
            reveal_strlit("9");
            assert("9"@ =~= seq![hex_char_of(9)]);
        }
        "9"
    } else if d == 10 {
        proof {
            reveal_strlit("a");
            assert("a"@ =~= seq![hex_char_of(10)]);
        }
        "a"
    } else if d == 11 {
        proof {
            reveal_strlit("b");
            assert("b"@ =~= seq![hex_char_of(11)]);
        }
        "b"
    } else if d == 12 {
        proof {
            reveal_strlit("c");
            assert("c"@ =~= seq![hex_char_of(12)]);
        }
        "c"
    } else if d == 13 {
        proof {
            reveal_strlit("d");
            assert("d"@ =~= seq![hex_char_of(13)]);
        }
        "d"
    } else if d == 14 {
        proof {
            reveal_strlit("e");
            assert("e"@ =~= seq![hex_char_of(14)]);
        }
        "e"
    } else {
        proof {
            reveal_strlit("f");
            assert("f"@ =~= seq![hex_char_of(d as nat)]);
        }
        "f"
    }
}

/// Encodes `s` as the body of a JSON string literal.
pub fn json_escape(s: &str) -> (r: String)
    ensures
        r@ == json_escaped(s@),
{
    let n = s.unicode_len();
    let mut out = String::new();
    let mut i: usize = 0;
    while i < n
        invariant
            i <= n,
            n == s@.len(),
            out@ == json_escaped(s@.take(i as int)),
        decreases n - i,
    {
        let c = s.get_char(i);
        let m = c as u32;
        proof {
            lemma_json_escaped_step(s@, i as int);
        }
        if m == 0x22 {
            out.append("\\\"");
            proof {
                reveal_strlit("\\\"");
                assert(escape_char(c) =~= "\\\""@);
            }
        } else if m == 0x5c {
            out.append("\\\\");
            proof {
                reveal_strlit("\\\\");
                assert(escape_char(c) =~= "\\\\"@);
            }
        } else if m == 0x08 {
            out.append("\\b");
            proof {
                reveal_strlit("\\b");
                assert(escape_char(c) =~= "\\b"@);
            }
        } else if m == 0x09 {
            out.append("\\t");
            proof {
                reveal_strlit("\\t");
                assert(escape_char(c) =~= "\\t"@);
            }
        } else if m == 0x0a {
            out.append("\\n");
            proof {
                reveal_strlit("\\n");
                assert(escape_char(c) =~= "\\n"@);
            }
        } else if m == 0x0c {
            out.append("\\f");
            proof {
                reveal_strlit("\\f");
                assert(escape_char(c) =~= "\\f"@);
            }
        } else if m == 0x0d {
            out.append("\\r");
            proof {
                reveal_strlit("\\r");
                assert(escape_char(c) =~= "\\r"@);
            }
        } else if m < 0x20 {
            out.append("\\u00");
            out.append(hex_char_str((m / 16) as u8));
            out.append(hex_char_str((m % 16) as u8));
            proof {
                reveal_strlit("\\u00");
                assert(out@ =~= json_escaped(s@.take(i as int)) + escape_char(c));
            }
        } else {
            let piece = s.substring_char(i, i + 1);
            out.append(piece);
            proof {
                assert(s@.subrange(i as int, i + 1) =~= seq![s@[i as int]]);
                assert(escape_char(c) =~= seq![c]);
            }
        }
        i = i + 1;
    }
    proof {
        assert(s@.take(n as int) =~= s@);
    }
    out
}

/// The JSON-RPC 2.0 envelope for a balance query of `addr` at the latest
/// block, with id 1.
pub open spec fn balance_envelope(addr: Seq<char>) -> Seq<char> {
    "{\"jsonrpc\":\"2.0\",\"method\":\"eth_getBalance\",\"params\":[\""@ + json_escaped(addr)
        + "\",\"latest\"],\"id\":1}"@
}

/// The JSON-RPC 2.0 envelope for a transaction lookup of `hash`, with id 1.
pub open spec fn transaction_envelope(hash: Seq<char>) -> Seq<char> {
    "{\"jsonrpc\":\"2.0\",\"method\":\"eth_getTransactionByHash\",\"params\":[\""@ + json_escaped(
        hash,
    ) + "\"],\"id\":1}"@
}

/// Builds the request body of an `eth_getBalance` call for `address`.
pub fn balance_request_body(address: &str) -> (r: String)
    ensures
        r@ == balance_envelope(address@),
{
    let mut out =
        "{\"jsonrpc\":\"2.0\",\"method\":\"eth_getBalance\",\"params\":[\"".to_owned();
    let esc = json_escape(address);
    out.append(esc.as_str());
    out.append("\",\"latest\"],\"id\":1}");
    out
}

/// Builds the request body of an `eth_getTransactionByHash` call for `hash`.
pub fn transaction_request_body(hash: &str) -> (r: String)
    ensures
        r@ == transaction_envelope(hash@),
{
    let mut out =
        "{\"jsonrpc\":\"2.0\",\"method\":\"eth_getTransactionByHash\",\"params\":[\"".to_owned();
    let esc = json_escape(hash);
    out.append(esc.as_str());
    out.append("\"],\"id\":1}");
    out
}

} // verus!
