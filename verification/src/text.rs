//! Texts as sequences of characters: the test whether one occurs in another,
//! and the pattern that asks a storage engine for the same test.

use vstd::prelude::*;
use vstd::string::StrSliceExecFns;
use vstd::string::StringExecFns;

verus! {

/// `part` stands in `text` at position `at`.
pub open spec fn occurs_at(text: Seq<char>, part: Seq<char>, at: int) -> bool {
    0 <= at && at + part.len() <= text.len() && text.subrange(at, at + part.len()) == part
}

/// `part` stands somewhere in `text`, letter for letter. Case counts: "bob"
/// does not occur in "Bob Marley". The empty text occurs in every text.
pub open spec fn contains_text(text: Seq<char>, part: Seq<char>) -> bool {
    exists|at: int| occurs_at(text, part, at)
}

/// The characters of `s`, in order.
pub fn chars_of(s: &str) -> (v: Vec<char>)
    ensures
        v@ == s@,
{
    let mut v: Vec<char> = Vec::new();
    for c in it: s.chars()
        invariant
            v@ == it.seq().take(it.index() as int),
            it.seq() == s@,
    {
        v.push(c);
    }
    v
}

fn stands_at(text: &Vec<char>, part: &Vec<char>, at: usize) -> (r: bool)
    requires
        at + part.len() <= text.len(),
    ensures
        r == occurs_at(text@, part@, at as int),
{
    let mut j: usize = 0;
    while j < part.len()
        invariant
            j <= part.len(),
            at + part.len() <= text.len(),
            forall|k: int| 0 <= k < j ==> text@[at + k] == part@[k],
        decreases part.len() - j,
    {
        if text[at + j] != part[j] {
            assert(text@.subrange(at as int, at + part.len())[j as int] == text@[at + j]);
            return false;
        }
        j += 1;
    }
    assert(text@.subrange(at as int, at + part.len()) =~= part@);
    true
}

/// Whether `part` occurs in `text`.
pub fn contains(text: &str, part: &str) -> (r: bool)
    ensures
        r == contains_text(text@, part@),
{
    let t = chars_of(text);
    let p = chars_of(part);
    if p.len() > t.len() {
        return false;
    }
    let last: usize = t.len() - p.len();
    let mut at: usize = 0;
    loop
        invariant
            at <= last,
            last == t.len() - p.len(),
            p.len() <= t.len(),
            t@ == text@,
            p@ == part@,
            forall|k: int| 0 <= k < at ==> !occurs_at(t@, p@, k),
        decreases last - at,
    {
        if stands_at(&t, &p, at) {
            return true;
        }
        if at == last {
            return false;
        }
        at += 1;
    }
}

/// Whether a pattern reads `c` as something other than itself: the two
/// wildcards and the escape character.
pub open spec fn is_pattern_special(c: char) -> bool {
    c == '%' || c == '_' || c == '\\'
}

/// How `c` is written in a pattern so that it stands for itself: behind an
/// escape character where the pattern would read it otherwise.
pub open spec fn escaped_char(c: char) -> Seq<char> {
    if is_pattern_special(c) {
        seq!['\\', c]
    } else {
        seq![c]
    }
}

/// `text` written so that a pattern reads every character of it as itself.
pub open spec fn escaped_text(text: Seq<char>) -> Seq<char>
    decreases text.len(),
{
    if text.len() == 0 {
        Seq::empty()
    } else {
        escaped_char(text.first()) + escaped_text(text.drop_first())
    }
}

/// The pattern that matches exactly the texts in which `part` occurs: `part`
/// escaped, between two wildcards.
pub open spec fn contains_pattern_text(part: Seq<char>) -> Seq<char> {
    seq!['%'] + escaped_text(part) + seq!['%']
}

/// Whether `text` matches `pattern` the way the `LIKE` of a storage engine
/// reads it: `%` stands for any run of characters, `_` for any one character,
/// a character behind the escape character `\` for itself, and every other
/// character for itself. Case counts.
pub open spec fn like_matches(pattern: Seq<char>, text: Seq<char>) -> bool
    decreases pattern.len(), text.len(),
{
    if pattern.len() == 0 {
        text.len() == 0
    } else if pattern.first() == '%' {
        like_matches(pattern.drop_first(), text) || (text.len() > 0 && like_matches(
            pattern,
            text.drop_first(),
        ))
    } else if pattern.first() == '_' {
        text.len() > 0 && like_matches(pattern.drop_first(), text.drop_first())
    } else if pattern.first() == '\\' {
        pattern.len() >= 2 && text.len() > 0 && text.first() == pattern[1] && like_matches(
            pattern.skip(2),
            text.drop_first(),
        )
    } else {
        text.len() > 0 && text.first() == pattern.first() && like_matches(
            pattern.drop_first(),
            text.drop_first(),
        )
    }
}

/// Escaping a text with one more character at its end escapes the text and
/// then the character.
pub proof fn lemma_escaped_push(text: Seq<char>, c: char)
    ensures
        escaped_text(text.push(c)) == escaped_text(text) + escaped_char(c),
    decreases text.len(),
{
    let longer = text.push(c);
    if text.len() == 0 {
        assert(longer.drop_first() =~= Seq::<char>::empty());
        assert(escaped_text(longer.drop_first()) =~= Seq::<char>::empty());
        assert(escaped_text(longer) =~= escaped_char(c));
        assert(escaped_text(text) + escaped_char(c) =~= escaped_char(c));
    } else {
        assert(longer.first() == text.first());
        assert(longer.drop_first() =~= text.drop_first().push(c));
        lemma_escaped_push(text.drop_first(), c);
        assert(escaped_text(longer) =~= escaped_text(text) + escaped_char(c));
    }
}

/// A pattern that starts with an escaped text matches exactly the texts that
/// start with that text and go on with a match of the rest of the pattern.
pub proof fn lemma_like_escaped(part: Seq<char>, rest: Seq<char>, text: Seq<char>)
    ensures
        like_matches(escaped_text(part) + rest, text) <==> (occurs_at(text, part, 0)
            && like_matches(rest, text.skip(part.len() as int))),
    decreases part.len(),
{
    if part.len() == 0 {
        assert(escaped_text(part) + rest =~= rest);
        assert(text.skip(0) =~= text);
        assert(text.subrange(0, 0) =~= part);
    } else {
        let c = part.first();
        let tail = part.drop_first();
        let pattern = escaped_text(part) + rest;
        let after = escaped_text(tail) + rest;
        if is_pattern_special(c) {
            assert(pattern =~= seq!['\\', c] + after);
            assert(pattern.first() == '\\' && pattern[1] == c);
            assert(pattern.skip(2) =~= after);
        } else {
            assert(pattern =~= seq![c] + after);
            assert(pattern.first() == c);
            assert(pattern.drop_first() =~= after);
        }
        assert(like_matches(pattern, text) <==> (text.len() > 0 && text.first() == c
            && like_matches(after, text.drop_first())));
        if text.len() > 0 {
            let shorter = text.drop_first();
            lemma_like_escaped(tail, rest, shorter);
            if part.len() <= text.len() {
                assert(shorter.skip(tail.len() as int) =~= text.skip(part.len() as int));
            }
            if occurs_at(shorter, tail, 0) && text.first() == c {
                assert(text.subrange(0, part.len() as int) =~= part) by {
                    assert(shorter.subrange(0, tail.len() as int) == tail);
                    assert forall|i: int| 0 <= i < part.len() implies text[i] == part[i] by {
                        if i > 0 {
                            assert(shorter.subrange(0, tail.len() as int)[i - 1] == shorter[i - 1]);
                            assert(tail[i - 1] == part[i]);
                        }
                    }
                }
            }
            if occurs_at(text, part, 0) {
                assert(text.subrange(0, part.len() as int)[0] == text[0]);
                assert(shorter.subrange(0, tail.len() as int) =~= tail) by {
                    assert forall|i: int| 0 <= i < tail.len() implies shorter[i] == tail[i] by {
                        assert(text.subrange(0, part.len() as int)[i + 1] == text[i + 1]);
                    }
                }
            }
        }
    }
}

/// A pattern that starts with the wildcard for any run matches exactly the
/// texts of which some tail matches the rest of the pattern.
pub proof fn lemma_like_any_run(rest: Seq<char>, text: Seq<char>)
    ensures
        like_matches(seq!['%'] + rest, text) <==> exists|k: int|
            0 <= k <= text.len() && like_matches(rest, #[trigger] text.skip(k)),
    decreases text.len(),
{
    let pattern = seq!['%'] + rest;
    assert(pattern.first() == '%');
    assert(pattern.drop_first() =~= rest);
    assert(text.skip(0) =~= text);
    if text.len() == 0 {
        if exists|k: int| 0 <= k <= text.len() && like_matches(rest, #[trigger] text.skip(k)) {
            let k = choose|k: int| 0 <= k <= text.len() && like_matches(rest, #[trigger] text.skip(k));
            assert(k == 0);
        }
    } else {
        let shorter = text.drop_first();
        lemma_like_any_run(rest, shorter);
        if like_matches(pattern, text) {
            if !like_matches(rest, text) {
                let k = choose|k: int|
                    0 <= k <= shorter.len() && like_matches(rest, #[trigger] shorter.skip(k));
                assert(shorter.skip(k) =~= text.skip(k + 1));
            }
        }
        if exists|k: int| 0 <= k <= text.len() && like_matches(rest, #[trigger] text.skip(k)) {
            let k = choose|k: int| 0 <= k <= text.len() && like_matches(rest, #[trigger] text.skip(k));
            if k > 0 {
                assert(shorter.skip(k - 1) =~= text.skip(k));
            }
        }
    }
}

/// The pattern made for a part matches exactly the texts in which the part
/// occurs: asking a storage engine for `LIKE` with it asks for the rows that
/// hold the part, whatever characters the part is made of.
pub proof fn lemma_contains_pattern(part: Seq<char>, text: Seq<char>)
    ensures
        like_matches(contains_pattern_text(part), text) <==> contains_text(text, part),
{
    let rest = escaped_text(part) + seq!['%'];
    assert(contains_pattern_text(part) =~= seq!['%'] + rest);
    lemma_like_any_run(rest, text);
    assert forall|k: int| 0 <= k <= text.len() implies (like_matches(rest, #[trigger] text.skip(k))
        <==> occurs_at(text, part, k)) by {
        let tail = text.skip(k);
        lemma_like_escaped(part, seq!['%'], tail);
        let end = tail.skip(part.len() as int);
        assert(like_matches(seq!['%'], end)) by {
            lemma_like_any_run(Seq::<char>::empty(), end);
            assert(seq!['%'] + Seq::<char>::empty() =~= seq!['%']);
            assert(end.skip(end.len() as int).len() == 0);
        }
        if occurs_at(tail, part, 0) {
            assert(text.subrange(k, k + part.len()) =~= tail.subrange(0, part.len() as int));
        }
        if occurs_at(text, part, k) {
            assert(tail.subrange(0, part.len() as int) =~= text.subrange(k, k + part.len()));
        }
    }
    if contains_text(text, part) {
        let at = choose|at: int| occurs_at(text, part, at);
        assert(like_matches(rest, text.skip(at)));
    }
}

/// Appends `part`, escaped, to `out`.
fn push_escaped(out: &mut String, part: &str)
    ensures
        final(out)@ == old(out)@ + escaped_text(part@),
{
    let n = part.unicode_len();
    let mut i: usize = 0;
    proof {
        assert(part@.take(0) =~= Seq::<char>::empty());
        assert(out@ =~= old(out)@ + escaped_text(part@.take(0)));
    }
    while i < n
        invariant
            i <= n,
            n == part@.len(),
            out@ == old(out)@ + escaped_text(part@.take(i as int)),
        decreases n - i,
    {
        let c = part.get_char(i);
        let one = part.substring_char(i, i + 1);
        let ghost before = out@;
        if c == '%' || c == '_' || c == '\\' {
            out.append("\\");
        }
        out.append(one);
        proof {
            reveal_strlit("\\");
            assert(part@.take(i + 1) =~= part@.take(i as int).push(c));
            lemma_escaped_push(part@.take(i as int), c);
            assert(one@ =~= seq![c]);
            assert(out@ =~= before + escaped_char(c));
            assert(out@ =~= old(out)@ + escaped_text(part@.take(i + 1)));
        }
        i += 1;
    }
    assert(part@.take(n as int) =~= part@);
}

/// The pattern that asks a storage engine for the rows whose text contains
/// `part`.
pub fn contains_pattern(part: &str) -> (r: String)
    ensures
        r@ == contains_pattern_text(part@),
{
    proof {
        reveal_strlit("%");
    }
    let mut out = String::from_str("%");
    push_escaped(&mut out, part);
    out.append("%");
    assert(out@ =~= contains_pattern_text(part@));
    out
}

} // verus!
