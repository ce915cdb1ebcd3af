use vstd::prelude::*;
use crate::candidate::Candidate;
use crate::hex::{digit_text, hex_char, is_lower_hex};

verus! {

/// The colour a piece of output is meant to be shown in.
#[derive(Clone, Copy, Debug, PartialEq, Eq, Structural)]
pub enum Tint {
    White,
    Cyan,
    Yellow,
    Red,
    Green,
}

/// A piece of output text, in one colour, optionally ending its line.
#[derive(Debug)]
pub struct Segment {
    pub tint: Tint,
    pub text: String,
    pub line_end: bool,
}

/// `s` is shown in `tint`, reads `text`, and ends its line when `line_end`.
pub open spec fn segment_is(s: Segment, tint: Tint, text: Seq<char>, line_end: bool) -> bool {
    s.tint == tint && s.text@ == text && s.line_end == line_end
}

/// The decimal digits of `n`, most significant first, with no leading zero.
pub open spec fn decimal_of(n: nat) -> Seq<char>
    decreases n,
{
    if n < 10 {
        seq![hex_char(n)]
    } else {
        decimal_of(n / 10) + seq![hex_char(n % 10)]
    }
}

/// The separator line framing the decorated output.
pub open spec fn banner_text() -> Seq<char> {
    "---------------------------------------------------------------------------------------"@
}

fn segment(tint: Tint, text: &str, line_end: bool) -> (r: Segment)
    ensures
        segment_is(r, tint, text@, line_end),
{
    Segment { tint, text: String::from_str(text), line_end }
}

fn append_decimal(s: &mut String, n: u64)
    ensures
        final(s)@ == old(s)@ + decimal_of(n as nat),
    decreases n,
{
    if n >= 10 {
        append_decimal(s, n / 10);
    }
    s.append(digit_text((n % 10) as u8));
    assert(s@ =~= old(s)@ + decimal_of(n as nat));
}

/// `n` in decimal.
pub fn decimal_string(n: u64) -> (r: String)
    ensures
        r@ == decimal_of(n as nat),
{
    let mut s = String::new();
    append_decimal(&mut s, n);
    assert(s@ =~= decimal_of(n as nat));
    s
}

fn banner() -> (r: Segment)
    ensures
        segment_is(r, Tint::White, banner_text(), true),
{
    segment(Tint::White, "---------------------------------------------------------------------------------------", true)
}

/// The header of a search: nothing in quiet mode; otherwise a banner, the
/// sentence "Looking for an address matching \<n\> pattern" (or "... matching
/// any of \<n\> patterns" when `pattern_count > 1`), and a banner.
pub fn header_segments(pattern_count: usize, quiet: bool) -> (r: Vec<Segment>)
    ensures
        quiet ==> r@.len() == 0,
        !quiet ==> {
            &&& r@.len() == 6
            &&& segment_is(r@[0], Tint::White, banner_text(), true)
            &&& pattern_count <= 1 ==> segment_is(r@[1], Tint::White, "Looking for an address matching "@, false)
            &&& pattern_count > 1 ==> segment_is(r@[1], Tint::White, "Looking for an address matching any of "@, false)
            &&& segment_is(r@[2], Tint::Cyan, decimal_of(pattern_count as nat), false)
            &&& pattern_count <= 1 ==> segment_is(r@[3], Tint::White, " pattern"@, false)
            &&& pattern_count > 1 ==> segment_is(r@[3], Tint::White, " patterns"@, false)
            &&& segment_is(r@[4], Tint::White, ""@, true)
            &&& segment_is(r@[5], Tint::White, banner_text(), true)
        },
{
    let mut r: Vec<Segment> = Vec::new();
    if quiet {
        return r;
    }
    r.push(banner());
    if pattern_count <= 1 {
        r.push(segment(Tint::White, "Looking for an address matching ", false));
    } else {
        r.push(segment(Tint::White, "Looking for an address matching any of ", false));
    }
    r.push(Segment { tint: Tint::Cyan, text: decimal_string(pattern_count as u64), line_end: false });
    if pattern_count <= 1 {
        r.push(segment(Tint::White, " pattern", false));
    } else {
        r.push(segment(Tint::White, " patterns", false));
    }
    r.push(segment(Tint::White, "", true));
    r.push(banner());
    r
}

/// `r` is the throughput line for `count`: nothing in quiet mode, otherwise
/// the count in decimal followed by " addresses / second".
pub open spec fn is_rate_line(r: Seq<Segment>, count: nat, quiet: bool) -> bool {
    &&& quiet ==> r.len() == 0
    &&& !quiet ==> {
        &&& r.len() == 2
        &&& segment_is(r[0], Tint::Cyan, decimal_of(count), false)
        &&& segment_is(r[1], Tint::White, " addresses / second"@, true)
    }
}

/// The throughput line "\<count\> addresses / second"; nothing in quiet mode.
pub fn rate_segments(count: u64, quiet: bool) -> (r: Vec<Segment>)
    ensures
        is_rate_line(r@, count as nat, quiet),
{
    let mut r: Vec<Segment> = Vec::new();
    if quiet {
        return r;
    }
    r.push(Segment { tint: Tint::Cyan, text: decimal_string(count), line_end: false });
    r.push(segment(Tint::White, " addresses / second", true));
    r
}

/// The error shown when no valid pattern was given; shown in quiet mode too.
pub fn no_pattern_segments() -> (r: Vec<Segment>)
    ensures
        r@.len() == 1,
        segment_is(r@[0], Tint::Red, "Please, provide at least one valid pattern."@, true),
{
    let mut r: Vec<Segment> = Vec::new();
    r.push(segment(Tint::Red, "Please, provide at least one valid pattern.", true));
    r
}

/// The address with its `0x` prefix.
pub open spec fn prefixed_address(c: Candidate) -> Seq<char> {
    seq!['0', 'x'] + c.address_view()
}

fn prefixed(c: &Candidate) -> (r: String)
    ensures
        r@ == prefixed_address(*c),
{
    proof {
        reveal_strlit("0x");
    }
    let mut s = String::from_str("0x");
    s.append(c.address().as_str());
    assert(s@ =~= prefixed_address(*c));
    s
}

/// The decorated result block; nothing in quiet mode.
pub fn result_segments(c: &Candidate, quiet: bool) -> (r: Vec<Segment>)
    ensures
        quiet ==> r@.len() == 0,
        !quiet ==> {
            &&& r@.len() == 8
            &&& segment_is(r@[0], Tint::White, banner_text(), true)
            &&& segment_is(r@[1], Tint::White, "Found address: "@, false)
            &&& segment_is(r@[2], Tint::Yellow, prefixed_address(*c), true)
            &&& segment_is(r@[3], Tint::White, "Generated private key: "@, false)
            &&& segment_is(r@[4], Tint::Red, c.private_key_view(), true)
            &&& segment_is(r@[5], Tint::White, "Import this private key into an ethereum wallet in order to use the address."@, true)
            &&& segment_is(r@[6], Tint::Green, "Buy me a cup of coffee; my ethereum address: 0xc0ffee3bd37d408910ecab316a07269fc49a20ee"@, true)
            &&& segment_is(r@[7], Tint::White, banner_text(), true)
        },
{
    let mut r: Vec<Segment> = Vec::new();
    if quiet {
        return r;
    }
    r.push(banner());
    r.push(segment(Tint::White, "Found address: ", false));
    r.push(Segment { tint: Tint::Yellow, text: prefixed(c), line_end: true });
    r.push(segment(Tint::White, "Generated private key: ", false));
    r.push(segment(Tint::Red, c.private_key().as_str(), true));
    r.push(segment(Tint::White, "Import this private key into an ethereum wallet in order to use the address.", true));
    r.push(segment(Tint::Green, "Buy me a cup of coffee; my ethereum address: 0xc0ffee3bd37d408910ecab316a07269fc49a20ee", true));
    r.push(banner());
    r
}

/// The quiet-mode result line: `0x<address> <private_key>`.
pub open spec fn quiet_text(c: Candidate) -> Seq<char> {
    prefixed_address(c) + seq![' '] + c.private_key_view()
}

/// The quiet-mode result line, without its line break.
pub fn quiet_line(c: &Candidate) -> (r: String)
    ensures
        r@ == quiet_text(*c),
{
    proof {
        reveal_strlit(" ");
    }
    let mut s = prefixed(c);
    s.append(" ");
    s.append(c.private_key().as_str());
    assert(s@ =~= quiet_text(*c));
    s
}

/// ASCII whitespace.
pub open spec fn is_space(c: char) -> bool {
    c == ' ' || c == '\t' || c == '\n' || c == '\r' || c == '\x0B' || c == '\x0C'
}

/// The maximal runs of non-whitespace characters of `s`, left to right.
pub open spec fn words(s: Seq<char>) -> Seq<Seq<char>>
    decreases s.len(),
{
    if s.len() == 0 {
        Seq::empty()
    } else if is_space(s.last()) {
        words(s.drop_last())
    } else if s.len() >= 2 && !is_space(s[s.len() - 2]) {
        let w = words(s.drop_last());
        w.update(w.len() - 1, w.last().push(s.last()))
    } else {
        words(s.drop_last()).push(seq![s.last()])
    }
}

/// Whether `s` holds no whitespace.
pub open spec fn no_space(s: Seq<char>) -> bool {
    forall|i: int| 0 <= i < s.len() ==> !is_space(#[trigger] s[i])
}

proof fn lemma_words_append_word(p: Seq<char>, x: Seq<char>)
    requires
        p.len() == 0 || is_space(p.last()),
        x.len() > 0,
        no_space(x),
    ensures
        words(p + x) == words(p).push(x),
    decreases x.len(),
{
    let s = p + x;
    assert(s.last() == x.last());
    if x.len() == 1 {
        assert(s.drop_last() =~= p);
        assert(seq![s.last()] =~= x);
    } else {
        let y = x.drop_last();
        assert(s.drop_last() =~= p + y);
        assert(s[s.len() - 2] == y.last());
        lemma_words_append_word(p, y);
        assert(y.push(x.last()) =~= x);
        assert(words(s) =~= words(p).push(x));
    }
}

proof fn lemma_words_append_space(p: Seq<char>, c: char)
    requires
        is_space(c),
    ensures
        words(p.push(c)) == words(p),
{
    assert(p.push(c).drop_last() =~= p);
}

proof fn lemma_lower_hex_no_space(s: Seq<char>)
    requires
        is_lower_hex(s),
    ensures
        no_space(s),
{
    assert forall|i: int| 0 <= i < s.len() implies !is_space(#[trigger] s[i]) by {
        assert(('0' <= s[i] && s[i] <= '9') || ('a' <= s[i] && s[i] <= 'f'));
    }
}

/// Splitting the quiet-mode line of a well-formed candidate on whitespace
/// gives back exactly the `0x`-prefixed address and the private key.
pub proof fn lemma_quiet_line_round_trip(c: Candidate)
    requires
        c.is_well_formed(),
    ensures
        words(quiet_text(c)) == seq![prefixed_address(c), c.private_key_view()],
{
    let a = prefixed_address(c);
    let k = c.private_key_view();
    lemma_lower_hex_no_space(c.address_view());
    lemma_lower_hex_no_space(k);
    assert(no_space(a)) by {
        assert forall|i: int| 0 <= i < a.len() implies !is_space(#[trigger] a[i]) by {
            if i >= 2 {
                assert(a[i] == c.address_view()[i - 2]);
            }
        }
    }
    let empty = Seq::<char>::empty();
    assert(empty + a =~= a);
    lemma_words_append_word(empty, a);
    lemma_words_append_space(a, ' ');
    let p = a.push(' ');
    lemma_words_append_word(p, k);
    assert(quiet_text(c) =~= p + k);
    assert(words(quiet_text(c)) =~= seq![a, k]);
}

} // verus!
