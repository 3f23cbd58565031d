//! Extraction of `<think>…</think>` reasoning blocks from model output.
use crate::text::{lemma_find_shift, find_chars, find_from, lemma_find_from_props, occurs_at, push_str, slice_chars, string_from_chars, to_chars, trim, trim_chars};
use vstd::prelude::*;

verus! {

/// A message split into its reasoning part and the remaining markdown body.
#[derive(Debug)]
pub struct ParsedMessageContent {
    /// The contents of all non-empty reasoning blocks, trimmed and joined by a
    /// blank line; `None` when there is none.
    pub thinking: Option<String>,
    /// The text outside the reasoning blocks, in its original order.
    pub body: String,
}

/// The opening tag `<think>`.
pub open spec fn open_tag() -> Seq<char> {
    seq!['<', 't', 'h', 'i', 'n', 'k', '>']
}

/// The closing tag `</think>`.
pub open spec fn close_tag() -> Seq<char> {
    seq!['<', '/', 't', 'h', 'i', 'n', 'k', '>']
}

/// The separator placed between two reasoning blocks.
pub open spec fn block_sep() -> Seq<char> {
    seq!['\n', '\n']
}

/// `parts` joined by `sep`.
pub open spec fn join(parts: Seq<Seq<char>>, sep: Seq<char>) -> Seq<char>
    decreases parts.len(),
{
    if parts.len() == 0 {
        Seq::empty()
    } else if parts.len() == 1 {
        parts[0]
    } else {
        join(parts.drop_last(), sep) + sep + parts.last()
    }
}

/// Splits `rem` into the trimmed non-empty reasoning blocks and the body, from
/// left to right: text before an opening tag goes to the body; an opening tag
/// with a matching closing tag encloses a block; an opening tag without one is
/// kept in the body as plain text.
pub open spec fn think_split(rem: Seq<char>) -> (Seq<Seq<char>>, Seq<char>)
    decreases rem.len(),
{
    match find_from(rem, open_tag(), 0) {
        None => (Seq::empty(), rem),
        Some(o) => {
            if 0 <= o && o + 7 <= rem.len() {
                let after = rem.skip(o + 7);
                match find_from(after, close_tag(), 0) {
                    Some(c) => {
                        if 0 <= c && c + 8 <= after.len() {
                            let inner = trim(after.take(c));
                            let tail = think_split(after.skip(c + 8));
                            (
                                if inner.len() > 0 {
                                    seq![inner] + tail.0
                                } else {
                                    tail.0
                                },
                                rem.take(o) + tail.1,
                            )
                        } else {
                            (Seq::empty(), rem)
                        }
                    },
                    None => {
                        let tail = think_split(after);
                        (tail.0, rem.take(o) + open_tag() + tail.1)
                    },
                }
            } else {
                (Seq::empty(), rem)
            }
        },
    }
}

fn open_tag_chars() -> (v: Vec<char>)
    ensures
        v@ == open_tag(),
{
    let v = vec!['<', 't', 'h', 'i', 'n', 'k', '>'];
    assert(v@ =~= open_tag());
    v
}

fn close_tag_chars() -> (v: Vec<char>)
    ensures
        v@ == close_tag(),
{
    let v = vec!['<', '/', 't', 'h', 'i', 'n', 'k', '>'];
    assert(v@ =~= close_tag());
    v
}

proof fn lemma_find_bounds(s: Seq<char>, p: Seq<char>)
    ensures
        find_from(s, p, 0) matches Some(k) ==> 0 <= k && k + p.len() <= s.len(),
{
    lemma_find_from_props(s, p, 0);
}

/// `parts` joined by a blank line.
fn join_blocks(parts: &Vec<Vec<char>>) -> (r: Vec<char>)
    ensures
        r@ == join(parts@.map_values(|p: Vec<char>| p@), block_sep()),
{
    let ghost views = parts@.map_values(|p: Vec<char>| p@);
    let mut out: Vec<char> = Vec::new();
    let mut i: usize = 0;
    while i < parts.len()
        invariant
            i <= parts.len(),
            views == parts@.map_values(|p: Vec<char>| p@),
            out@ == join(views.take(i as int), block_sep()),
        decreases parts.len() - i,
    {
        let ghost before = out@;
        if i > 0 {
            out.push('\n');
            out.push('\n');
        }
        push_str(&mut out, &parts[i]);
        proof {
            let t = views.take(i + 1);
            assert(t.drop_last() =~= views.take(i as int));
            assert(t.last() == parts@[i as int]@);
            if i > 0 {
                assert(out@ =~= before + block_sep() + parts@[i as int]@);
            } else {
                assert(out@ =~= parts@[i as int]@);
            }
        }
        i = i + 1;
    }
    assert(views.take(parts.len() as int) =~= views);
    out
}

/// Splits `content` into its reasoning blocks and its body.
///
/// All `<think>…</think>` blocks whose trimmed contents are non-empty are
/// collected in order and joined by `"\n\n"`; the text outside them forms the
/// body. An opening tag without a closing tag stays in the body as text.
pub fn split_thinking_blocks(content: &str) -> (r: ParsedMessageContent)
    ensures
        r.body@ == think_split(content@).1,
        r.thinking is None <==> think_split(content@).0.len() == 0,
        r.thinking matches Some(t) ==> t@ == join(think_split(content@).0, block_sep()),
{
    let s = to_chars(content);
    let open = open_tag_chars();
    let close = close_tag_chars();
    let mut parts: Vec<Vec<char>> = Vec::new();
    let mut body: Vec<char> = Vec::new();
    let mut pos: usize = 0;
    let ghost full = think_split(s@);
    assert(s@.skip(0) =~= s@);
    loop
        invariant
            pos <= s.len(),
            open@ == open_tag(),
            close@ == close_tag(),
            full == think_split(s@),
            parts@.map_values(|p: Vec<char>| p@) + think_split(s@.skip(pos as int)).0 == full.0,
            body@ + think_split(s@.skip(pos as int)).1 == full.1,
        ensures
            pos == s.len(),
            parts@.map_values(|p: Vec<char>| p@) + think_split(s@.skip(pos as int)).0 == full.0,
            body@ + think_split(s@.skip(pos as int)).1 == full.1,
        decreases s.len() - pos,
    {
        let ghost rem = s@.skip(pos as int);
        let ghost pv = parts@.map_values(|p: Vec<char>| p@);
        let ghost body0 = body@;
        let found = find_chars(&s, &open, pos);
        proof {
            lemma_find_shift(s@, open@, pos as int, 0);
            lemma_find_bounds(rem, open@);
        }
        match found {
            None => {
                let tail = slice_chars(&s, pos, s.len());
                assert(tail@ =~= rem);
                push_str(&mut body, &tail);
                proof {
                    assert(pv + Seq::<Seq<char>>::empty() =~= pv);
                    assert(s@.skip(s.len() as int) =~= Seq::<char>::empty());
                    assert(think_split(Seq::<char>::empty()).0 =~= Seq::<Seq<char>>::empty());
                    assert(body@ + think_split(Seq::<char>::empty()).1 =~= body0 + rem);
                }
                pos = s.len();
                break ;
            },
            Some(o) => {
                let ro = (o - pos) as usize;
                let before = slice_chars(&s, pos, o);
                assert(before@ =~= rem.take(ro as int));
                push_str(&mut body, &before);
                let after_start = o + 7;
                let ghost after = rem.skip(ro + 7);
                assert(after =~= s@.skip(after_start as int));
                let cfound = find_chars(&s, &close, after_start);
                proof {
                    lemma_find_shift(s@, close@, after_start as int, 0);
                    lemma_find_bounds(after, close@);
                }
                match cfound {
                    Some(c) => {
                        let rc = (c - after_start) as usize;
                        let inner = slice_chars(&s, after_start, c);
                        assert(inner@ =~= after.take(rc as int));
                        let trimmed = trim_chars(&inner);
                        let ghost tail = think_split(after.skip(rc + 8));
                        assert(after.skip(rc + 8) =~= s@.skip(c + 8));
                        if trimmed.len() > 0 {
                            parts.push(trimmed);
                            proof {
                                assert(parts@.map_values(|p: Vec<char>| p@) =~= pv.push(trimmed@));
                                assert(pv.push(trimmed@) + tail.0 =~= pv + (seq![trimmed@] + tail.0));
                            }
                        }
                        proof {
                            assert(body@ + tail.1 =~= body0 + (rem.take(ro as int) + tail.1));
                        }
                        pos = c + 8;
                    },
                    None => {
                        push_str(&mut body, &open);
                        proof {
                            let tail = think_split(after);
                            assert(body@ + tail.1 =~= body0 + (rem.take(ro as int) + open_tag() + tail.1));
                        }
                        pos = after_start;
                    },
                }
            },
        }
    }
    proof {
        let e = s@.skip(pos as int);
        assert(e =~= Seq::<char>::empty());
        assert(think_split(e).0 =~= Seq::<Seq<char>>::empty());
        assert(think_split(e).1 =~= Seq::<char>::empty());
        assert(parts@.map_values(|p: Vec<char>| p@) =~= full.0);
        assert(body@ =~= full.1);
    }
    let body_s = string_from_chars(&body);
    if parts.len() == 0 {
        ParsedMessageContent { thinking: None, body: body_s }
    } else {
        let joined = join_blocks(&parts);
        ParsedMessageContent { thinking: Some(string_from_chars(&joined)), body: body_s }
    }
}

/// Lower-case hexadecimal digit of a value below 16.
pub open spec fn hex_char(v: nat) -> char {
    if v < 10 {
        ((48 + v) as u8) as char
    } else {
        ((87 + v) as u8) as char
    }
}

/// `n` in lower-case hexadecimal, without leading zeros (`"0"` for zero).
pub open spec fn hex_text(n: nat) -> Seq<char>
    decreases n,
{
    if n < 16 {
        seq![hex_char(n)]
    } else {
        hex_text(n / 16) + seq![hex_char(n % 16)]
    }
}

/// Nanoseconds since the Unix epoch (0 when the clock is before it).
#[verifier::external_body]
fn unix_now_nanos() -> (r: u128) {
    std::time::SystemTime::now().duration_since(std::time::UNIX_EPOCH).map(|d| d.as_nanos())
        .unwrap_or(0)
}

/// `n` in lower-case hexadecimal.
pub fn to_hex_text(n: u128) -> (r: String)
    ensures
        r@ == hex_text(n as nat),
{
    let mut digits: Vec<char> = Vec::new();
    let mut m = n;
    while m >= 16
        invariant
            hex_text(n as nat) == hex_text(m as nat) + digits@.reverse(),
        decreases m,
    {
        let d = (m % 16) as u8;
        let c = if d < 10 { (48 + d) as char } else { (87 + d) as char };
        proof {
            assert(c == hex_char((m % 16) as nat));
            assert(digits@.push(c).reverse() =~= seq![c] + digits@.reverse());
        }
        digits.push(c);
        m = m / 16;
    }
    let d = m as u8;
    let c = if d < 10 { (48 + d) as char } else { (87 + d) as char };
    digits.push(c);
    proof {
        assert(digits@.reverse() =~= seq![c] + digits@.drop_last().reverse());
    }
    let mut out: Vec<char> = Vec::new();
    let mut i = digits.len();
    while i > 0
        invariant
            i <= digits@.len(),
            out@ == digits@.subrange(i as int, digits@.len() as int).reverse(),
        decreases i,
    {
        out.push(digits[i - 1]);
        i = i - 1;
        proof {
            assert(digits@.subrange(i as int, digits@.len() as int).reverse() =~= digits@.subrange(
                i + 1,
                digits@.len() as int,
            ).reverse().push(digits@[i as int]));
        }
    }
    proof {
        assert(digits@.subrange(0, digits@.len() as int) =~= digits@);
    }
    string_from_chars(&out)
}

/// A unique-enough id: the current time in nanoseconds, in hexadecimal.
pub fn uuid_like() -> (r: String)
    ensures
        exists|n: u128| r@ == hex_text(n as nat),
{
    let n = unix_now_nanos();
    to_hex_text(n)
}

} // verus!
