//! Escaping and truncation of text for the delivery transport.
//!
//! Dynamic text that is injected into a message template must not carry any
//! of the characters that the transport's markup dialect reserves, and the
//! transport accepts only a bounded number of bytes per message.  Both rules
//! are enforced here: first the text is cut to the byte limit without
//! splitting a multi-byte character, then every reserved character is
//! prefixed with a single backslash.

use vstd::prelude::*;
use vstd::string::*;

verus! {

/// True for the characters that the markup dialect reserves:
/// `\ _ * [ ] ( ) ~ ` > # + - = | { } . !`
pub open spec fn reserved_char(c: char) -> bool {
    ||| c == '\\'
    ||| c == '_'
    ||| c == '*'
    ||| c == '['
    ||| c == ']'
    ||| c == '('
    ||| c == ')'
    ||| c == '~'
    ||| c == '`'
    ||| c == '>'
    ||| c == '#'
    ||| c == '+'
    ||| c == '-'
    ||| c == '='
    ||| c == '|'
    ||| c == '{'
    ||| c == '}'
    ||| c == '.'
    ||| c == '!'
}

/// How one character reads after escaping: a reserved character gains a
/// single leading backslash, any other character stands alone.
pub open spec fn escaped_char(c: char) -> Seq<char> {
    if reserved_char(c) {
        seq!['\\', c]
    } else {
        seq![c]
    }
}

/// The escaping of a whole character sequence.
pub open spec fn escape_seq(s: Seq<char>) -> Seq<char>
    decreases s.len(),
{
    if s.len() == 0 {
        Seq::<char>::empty()
    } else {
        escaped_char(s[0]) + escape_seq(s.drop_first())
    }
}

/// A left-to-right scan of escaped text, where a backslash always escapes
/// the character after it: the scan accepts the text when every reserved
/// character is the payload of such a pair, preceded by exactly its one
/// escaping backslash, and every character standing alone is unreserved.
pub open spec fn well_escaped(t: Seq<char>) -> bool
    decreases t.len(),
{
    if t.len() == 0 {
        true
    } else if t[0] == '\\' {
        &&& t.len() >= 2
        &&& reserved_char(t[1])
        &&& well_escaped(t.skip(2))
    } else {
        &&& !reserved_char(t[0])
        &&& well_escaped(t.drop_first())
    }
}

/// The same scan, reading the escaped text back: each escaping backslash is
/// dropped and its payload kept, so unescaping recovers the original text.
pub open spec fn unescape_seq(t: Seq<char>) -> Seq<char>
    decreases t.len(),
{
    if t.len() == 0 {
        Seq::<char>::empty()
    } else if t[0] == '\\' && t.len() >= 2 {
        seq![t[1]] + unescape_seq(t.skip(2))
    } else {
        seq![t[0]] + unescape_seq(t.drop_first())
    }
}

/// Escaping distributes over concatenation.
pub proof fn lemma_escape_seq_concat(a: Seq<char>, b: Seq<char>)
    ensures
        escape_seq(a + b) == escape_seq(a) + escape_seq(b),
    decreases a.len(),
{
    if a.len() == 0 {
        assert(a + b =~= b);
        assert(escape_seq(a) + escape_seq(b) =~= escape_seq(b));
    } else {
        assert((a + b)[0] == a[0]);
        assert((a + b).drop_first() =~= a.drop_first() + b);
        lemma_escape_seq_concat(a.drop_first(), b);
        assert(escaped_char(a[0]) + (escape_seq(a.drop_first()) + escape_seq(b)) =~= (
        escaped_char(a[0]) + escape_seq(a.drop_first())) + escape_seq(b));
    }
}

/// Escaped text always passes the scan: every reserved character in the
/// output is preceded by exactly one backslash, its escape.
pub proof fn lemma_escape_well_formed(s: Seq<char>)
    ensures
        well_escaped(escape_seq(s)),
    decreases s.len(),
{
    if s.len() > 0 {
        let c = s[0];
        let t = escape_seq(s);
        lemma_escape_well_formed(s.drop_first());
        if reserved_char(c) {
            assert(t[0] == '\\');
            assert(t[1] == c);
            assert(t.skip(2) =~= escape_seq(s.drop_first()));
        } else {
            assert(t[0] == c);
            assert(t.drop_first() =~= escape_seq(s.drop_first()));
        }
    }
}

/// Unescaping undoes escaping, so escaping loses no character and changes
/// no unreserved one.
pub proof fn lemma_escape_round_trip(s: Seq<char>)
    ensures
        unescape_seq(escape_seq(s)) == s,
    decreases s.len(),
{
    if s.len() == 0 {
        assert(unescape_seq(escape_seq(s)) =~= s);
    } else {
        let c = s[0];
        let t = escape_seq(s);
        lemma_escape_round_trip(s.drop_first());
        if reserved_char(c) {
            assert(t[0] == '\\');
            assert(t[1] == c);
            assert(t.skip(2) =~= escape_seq(s.drop_first()));
            assert(seq![c] + unescape_seq(escape_seq(s.drop_first())) =~= s);
        } else {
            assert(t[0] == c);
            assert(t.drop_first() =~= escape_seq(s.drop_first()));
            assert(seq![c] + unescape_seq(escape_seq(s.drop_first())) =~= s);
        }
    }
}

/// Width in bytes of one character under UTF-8.
pub open spec fn char_bytes(c: char) -> nat {
    if (c as u32) < 0x80 {
        1
    } else if (c as u32) < 0x800 {
        2
    } else if (c as u32) < 0x10000 {
        3
    } else {
        4
    }
}

/// Width in bytes of a character sequence under UTF-8.
pub open spec fn byte_len(s: Seq<char>) -> nat
    decreases s.len(),
{
    if s.len() == 0 {
        0
    } else {
        char_bytes(s[0]) + byte_len(s.drop_first())
    }
}

/// Byte width adds over concatenation.
pub proof fn lemma_byte_len_concat(a: Seq<char>, b: Seq<char>)
    ensures
        byte_len(a + b) == byte_len(a) + byte_len(b),
    decreases a.len(),
{
    if a.len() == 0 {
        assert(a + b =~= b);
    } else {
        assert((a + b)[0] == a[0]);
        assert((a + b).drop_first() =~= a.drop_first() + b);
        lemma_byte_len_concat(a.drop_first(), b);
    }
}

/// The longest prefix whose UTF-8 encoding fits in `limit` bytes: characters
/// are taken whole from the front while the byte budget allows, so no
/// multi-byte character is ever split.
pub open spec fn truncate_bytes(s: Seq<char>, limit: nat) -> Seq<char>
    decreases s.len(),
{
    if s.len() == 0 {
        Seq::<char>::empty()
    } else if char_bytes(s[0]) > limit {
        Seq::<char>::empty()
    } else {
        seq![s[0]] + truncate_bytes(s.drop_first(), (limit - char_bytes(s[0])) as nat)
    }
}

/// A character's byte width agrees with the length of its encoding in
/// `vstd::utf8`, so `byte_len` really counts encoded bytes.
pub proof fn lemma_char_bytes_is_encoding_len(c: char)
    ensures
        char_bytes(c) == vstd::utf8::encode_scalar(c as u32).len(),
{
    vstd::utf8::char_is_scalar(c);
}

/// `byte_len` is the length of the UTF-8 encoding of the sequence.
pub proof fn lemma_byte_len_is_encoding_len(s: Seq<char>)
    ensures
        byte_len(s) == vstd::utf8::encode_utf8(s).len(),
    decreases s.len(),
{
    if s.len() > 0 {
        lemma_char_bytes_is_encoding_len(s[0]);
        lemma_byte_len_is_encoding_len(s.drop_first());
    }
}

/// Truncation is correct: the result is a prefix of the input, its encoding
/// fits in the limit, a fitting input is kept whole, and when something was
/// cut, the next character would not have fit, so nothing was cut needlessly.
pub proof fn lemma_truncate_bytes(s: Seq<char>, limit: nat)
    ensures
        truncate_bytes(s, limit).len() <= s.len(),
        truncate_bytes(s, limit) == s.take(truncate_bytes(s, limit).len() as int),
        byte_len(truncate_bytes(s, limit)) <= limit,
        byte_len(s) <= limit ==> truncate_bytes(s, limit) == s,
        truncate_bytes(s, limit).len() < s.len() ==> byte_len(truncate_bytes(s, limit))
            + char_bytes(s[truncate_bytes(s, limit).len() as int]) > limit,
    decreases s.len(),
{
    let t = truncate_bytes(s, limit);
    if s.len() == 0 {
        assert(t =~= s.take(t.len() as int));
    } else if char_bytes(s[0]) > limit {
        assert(t =~= s.take(0));
    } else {
        let rest = s.drop_first();
        let rem = (limit - char_bytes(s[0])) as nat;
        let tr = truncate_bytes(rest, rem);
        lemma_truncate_bytes(rest, rem);
        assert(t == seq![s[0]] + tr);
        assert(t[0] == s[0]);
        assert(t.drop_first() =~= tr);
        assert forall|j: int| 0 <= j < t.len() implies t[j] == s.take(t.len() as int)[j] by {
            if j > 0 {
                assert(t[j] == tr[j - 1]);
                assert(tr[j - 1] == rest.take(tr.len() as int)[j - 1]);
                assert(rest[j - 1] == s[j]);
            }
        }
        assert(t =~= s.take(t.len() as int));
        if byte_len(s) <= limit {
            assert(tr == rest);
            assert(t =~= s);
        }
        if t.len() < s.len() {
            assert(tr.len() < rest.len());
            assert(rest[tr.len() as int] == s[t.len() as int]);
        }
    }
}

/// True when the character is reserved by the markup dialect.
pub fn is_reserved(c: char) -> (r: bool)
    ensures
        r == reserved_char(c),
{
    c == '\\' || c == '_' || c == '*' || c == '[' || c == ']' || c == '(' || c == ')' || c == '~'
        || c == '`' || c == '>' || c == '#' || c == '+' || c == '-' || c == '=' || c == '|' || c
        == '{' || c == '}' || c == '.' || c == '!'
}

/// Width in bytes of one character under UTF-8.
pub fn char_width(c: char) -> (w: usize)
    ensures
        w == char_bytes(c),
{
    let u: u32 = c as u32;
    if u < 0x80 {
        1
    } else if u < 0x800 {
        2
    } else if u < 0x10000 {
        3
    } else {
        4
    }
}

/// Cuts `s` to the longest prefix whose UTF-8 encoding fits in `limit`
/// bytes, never splitting a character.
pub fn truncate_text(s: &str, limit: usize) -> (r: String)
    ensures
        r@ == truncate_bytes(s@, limit as nat),
{
    let n: usize = s.unicode_len();
    let mut i: usize = 0;
    let mut used: usize = 0;
    proof {
        assert(s@.take(0) =~= Seq::<char>::empty());
        assert(s@.skip(0) =~= s@);
        assert(s@.take(0) + truncate_bytes(s@, limit as nat) =~= truncate_bytes(
            s@,
            limit as nat,
        ));
    }
    loop
        invariant_except_break
            i <= n,
            n == s@.len(),
            used <= limit,
            used == byte_len(s@.take(i as int)),
            truncate_bytes(s@, limit as nat) == s@.take(i as int) + truncate_bytes(
                s@.skip(i as int),
                (limit - used) as nat,
            ),
        ensures
            i <= n,
            n == s@.len(),
            truncate_bytes(s@, limit as nat) == s@.take(i as int),
        decreases n - i,
    {
        if i >= n {
            proof {
                assert(s@.skip(i as int) =~= Seq::<char>::empty());
                assert(s@.take(i as int) + Seq::<char>::empty() =~= s@.take(i as int));
            }
            break ;
        }
        let c = s.get_char(i);
        let w = char_width(c);
        proof {
            assert(s@.skip(i as int)[0] == s@[i as int]);
        }
        if w > limit - used {
            proof {
                assert(truncate_bytes(s@.skip(i as int), (limit - used) as nat) =~= Seq::<
                    char,
                >::empty());
                assert(s@.take(i as int) + Seq::<char>::empty() =~= s@.take(i as int));
            }
            break ;
        }
        proof {
            let rest = s@.skip(i as int);
            let rem = (limit - used) as nat;
            assert(rest.drop_first() =~= s@.skip(i as int + 1));
            assert(truncate_bytes(rest, rem) == seq![s@[i as int]] + truncate_bytes(
                s@.skip(i as int + 1),
                (rem - char_bytes(s@[i as int])) as nat,
            ));
            assert(s@.take(i as int) + truncate_bytes(rest, rem) =~= s@.take(i as int + 1)
                + truncate_bytes(
                s@.skip(i as int + 1),
                (rem - char_bytes(s@[i as int])) as nat,
            ));
            assert(s@.take(i as int + 1) =~= s@.take(i as int) + seq![s@[i as int]]);
            lemma_byte_len_concat(s@.take(i as int), seq![s@[i as int]]);
            assert(seq![s@[i as int]].drop_first() =~= Seq::<char>::empty());
            assert(byte_len(Seq::<char>::empty()) == 0);
            assert(byte_len(seq![s@[i as int]]) == char_bytes(s@[i as int]));
        }
        used = used + w;
        i = i + 1;
    }
    let prefix = s.substring_char(0, i);
    proof {
        assert(prefix@ =~= s@.take(i as int));
    }
    String::from_str(prefix)
}

/// Escapes `text` for the markup dialect after cutting it to the
/// transport's limit of 2048 bytes: every reserved character in the kept
/// prefix gains one leading backslash.
pub fn escape_markdown(text: String) -> (r: String)
    ensures
        r@ == escape_seq(truncate_bytes(text@, 2048)),
{
    let kept = truncate_text(text.as_str(), 2048);
    let ks = kept.as_str();
    let n: usize = ks.unicode_len();
    let mut out = String::new();
    let mut i: usize = 0;
    proof {
        assert(ks@.take(0) =~= Seq::<char>::empty());
    }
    while i < n
        invariant
            i <= n,
            n == ks@.len(),
            ks@ == truncate_bytes(text@, 2048),
            out@ == escape_seq(ks@.take(i as int)),
        decreases n - i,
    {
        let c = ks.get_char(i);
        let ghost prev = out@;
        if is_reserved(c) {
            out.append("\\");
        }
        let piece = ks.substring_char(i, i + 1);
        out.append(piece);
        proof {
            reveal_strlit("\\");
            assert("\\"@ =~= seq!['\\']);
            assert(piece@ =~= seq![ks@[i as int]]);
            lemma_escape_seq_concat(ks@.take(i as int), seq![ks@[i as int]]);
            assert(ks@.take(i as int) + seq![ks@[i as int]] =~= ks@.take(i as int + 1));
            assert(seq![ks@[i as int]].drop_first() =~= Seq::<char>::empty());
            assert(escape_seq(Seq::<char>::empty()) =~= Seq::<char>::empty());
            assert(escape_seq(seq![ks@[i as int]]) =~= escaped_char(ks@[i as int]));
            assert(out@ =~= prev + escaped_char(ks@[i as int]));
        }
        i = i + 1;
    }
    proof {
        assert(ks@.take(n as int) =~= ks@);
    }
    out
}

} // verus!
