use vstd::prelude::*;
use vstd::string::*;

verus! {

/// Whether `c` has Unicode's `White_Space` property, the set that `char::is_whitespace` tests.
pub open spec fn is_white(c: char) -> bool {
    let u = c as u32;
    (9 <= u && u <= 13) || u == 32 || u == 0x85 || u == 0xA0 || u == 0x1680 || (0x2000 <= u && u
        <= 0x200A) || u == 0x2028 || u == 0x2029 || u == 0x202F || u == 0x205F || u == 0x3000
}

pub open spec fn is_ascii_char(c: char) -> bool {
    (c as u32) < 128
}

pub open spec fn ascii_pred() -> spec_fn(char) -> bool {
    |c: char| is_ascii_char(c)
}

pub open spec fn visible_pred() -> spec_fn(char) -> bool {
    |c: char| !is_white(c)
}

/// The text with every character outside 7-bit ASCII dropped.
pub open spec fn strip_non_ascii(s: Seq<char>) -> Seq<char> {
    s.filter(ascii_pred())
}

/// The text with every whitespace character replaced by one plain space.
pub open spec fn blank_whitespace(s: Seq<char>) -> Seq<char> {
    s.map_values(|c: char| if is_white(c) { ' ' } else { c })
}

/// The text from position `i` on, with each two-character sequence `\f` (a backslash, then `f`)
/// replaced by one space, matched from the left.
pub open spec fn unescape_form_feeds_from(s: Seq<char>, i: int) -> Seq<char>
    decreases s.len() - i,
{
    if i < 0 || i >= s.len() {
        Seq::empty()
    } else if i + 1 < s.len() && s[i] == '\\' && s[i + 1] == 'f' {
        seq![' '] + unescape_form_feeds_from(s, i + 2)
    } else {
        seq![s[i]] + unescape_form_feeds_from(s, i + 1)
    }
}

pub open spec fn unescape_form_feeds(s: Seq<char>) -> Seq<char> {
    unescape_form_feeds_from(s, 0)
}

/// A raw flavor text made fit for output: non-ASCII dropped, whitespace blanked, `\f` replaced.
pub open spec fn sanitized(s: Seq<char>) -> Seq<char> {
    unescape_form_feeds(blank_whitespace(strip_non_ascii(s)))
}

pub open spec fn all_ascii(s: Seq<char>) -> bool {
    forall|k: int| 0 <= k < s.len() ==> is_ascii_char(#[trigger] s[k])
}

/// Every character is 7-bit ASCII, and the only whitespace character is the plain space.
pub open spec fn is_plain_ascii(s: Seq<char>) -> bool {
    forall|k: int| 0 <= k < s.len() ==> is_ascii_char(#[trigger] s[k]) && (is_white(s[k]) ==> s[k]
        == ' ')
}

/// The text with every whitespace character removed.
pub open spec fn without_white(s: Seq<char>) -> Seq<char> {
    s.filter(visible_pred())
}

/// The text without its leading whitespace.
pub open spec fn trim_start(s: Seq<char>) -> Seq<char>
    decreases s.len(),
{
    if s.len() > 0 && is_white(s[0]) {
        trim_start(s.drop_first())
    } else {
        s
    }
}

/// The text without its trailing whitespace.
pub open spec fn trim_end(s: Seq<char>) -> Seq<char>
    decreases s.len(),
{
    if s.len() > 0 && is_white(s.last()) {
        trim_end(s.drop_last())
    } else {
        s
    }
}

/// The text without whitespace at either end.
pub open spec fn trimmed(s: Seq<char>) -> Seq<char> {
    trim_end(trim_start(s))
}

pub open spec fn ascii_lower(c: char) -> char {
    if 'A' <= c && c <= 'Z' {
        ((c as u32) + 32) as char
    } else {
        c
    }
}

/// What `str::to_lowercase` returns for a text: Unicode's full lowercase mapping.
pub uninterp spec fn lower_of(s: Seq<char>) -> Seq<char>;

/// Relies on `str::to_lowercase`: the result depends on the text alone, and on ASCII text it
/// maps `A`..`Z` to `a`..`z` and keeps every other character.
#[verifier::external_body]
pub(crate) fn lowercase(s: &str) -> (r: String)
    ensures
        r@ == lower_of(s@),
        all_ascii(s@) ==> r@ == s@.map_values(|c: char| ascii_lower(c)),
{
    s.to_lowercase()
}

/// Relies on `String::push`: the character is appended at the end.
#[verifier::external_body]
pub(crate) fn push_char(s: &mut String, c: char)
    ensures
        final(s)@ == old(s)@.push(c),
{
    s.push(c)
}

pub fn is_whitespace_char(c: char) -> (r: bool)
    ensures
        r == is_white(c),
{
    let u = c as u32;
    (9 <= u && u <= 13) || u == 32 || u == 0x85 || u == 0xA0 || u == 0x1680 || (0x2000 <= u && u
        <= 0x200A) || u == 0x2028 || u == 0x2029 || u == 0x202F || u == 0x205F || u == 0x3000
}

fn strip_non_ascii_text(s: &str) -> (r: String)
    ensures
        r@ == strip_non_ascii(s@),
{
    let n = s.unicode_len();
    let mut out = String::new();
    let mut i: usize = 0;
    while i < n
        invariant
            n == s@.len(),
            i <= n,
            out@ == strip_non_ascii(s@.take(i as int)),
        decreases n - i,
    {
        let c = s.get_char(i);
        proof {
            assert(s@.take(i as int + 1) =~= s@.take(i as int).push(c));
            s@.take(i as int).lemma_filter_push(c, ascii_pred());
        }
        if (c as u32) < 128 {
            push_char(&mut out, c);
        }
        i += 1;
    }
    proof {
        assert(s@.take(n as int) =~= s@);
    }
    out
}

fn blank_whitespace_text(s: &str) -> (r: String)
    ensures
        r@ == blank_whitespace(s@),
{
    let n = s.unicode_len();
    let mut out = String::new();
    let mut i: usize = 0;
    while i < n
        invariant
            n == s@.len(),
            i <= n,
            out@ == blank_whitespace(s@.take(i as int)),
        decreases n - i,
    {
        let c = s.get_char(i);
        let d = if is_whitespace_char(c) {
            ' '
        } else {
            c
        };
        proof {
            assert(blank_whitespace(s@.take(i as int + 1)) =~= blank_whitespace(
                s@.take(i as int),
            ).push(d));
        }
        push_char(&mut out, d);
        i += 1;
    }
    proof {
        assert(s@.take(n as int) =~= s@);
    }
    out
}

fn unescape_form_feeds_text(s: &str) -> (r: String)
    ensures
        r@ == unescape_form_feeds(s@),
{
    let n = s.unicode_len();
    let mut out = String::new();
    let mut i: usize = 0;
    while i < n
        invariant
            n == s@.len(),
            i <= n,
            out@ + unescape_form_feeds_from(s@, i as int) == unescape_form_feeds(s@),
        decreases n - i,
    {
        let c = s.get_char(i);
        if c == '\\' && i + 1 < n && s.get_char(i + 1) == 'f' {
            proof {
                let rest = unescape_form_feeds_from(s@, i + 2);
                assert(out@.push(' ') + rest =~= out@ + (seq![' '] + rest));
            }
            push_char(&mut out, ' ');
            i += 2;
        } else {
            proof {
                let rest = unescape_form_feeds_from(s@, i + 1);
                assert(out@.push(c) + rest =~= out@ + (seq![c] + rest));
            }
            push_char(&mut out, c);
            i += 1;
        }
    }
    proof {
        assert(out@ + unescape_form_feeds_from(s@, i as int) =~= out@);
    }
    out
}

/// Makes a raw flavor text fit for output.
pub fn sanitize(s: &str) -> (r: String)
    ensures
        r@ == sanitized(s@),
{
    let a = strip_non_ascii_text(s);
    let b = blank_whitespace_text(a.as_str());
    unescape_form_feeds_text(b.as_str())
}

/// The text with `A`..`Z` lowered to `a`..`z` and every other character kept.
pub open spec fn lower_ascii(s: Seq<char>) -> Seq<char> {
    s.map_values(|c: char| ascii_lower(c))
}

/// A lookup name in canonical form: trimmed, lowercased, with all whitespace removed.
pub open spec fn normalized_name(s: Seq<char>) -> Seq<char> {
    without_white(lower_of(trimmed(s)))
}

/// The canonical form of a name written in ASCII, where lowercasing is ASCII lowercasing.
pub open spec fn ascii_normalized_name(s: Seq<char>) -> Seq<char> {
    without_white(lower_ascii(trimmed(s)))
}

proof fn lemma_trim_start_at(s: Seq<char>, a: int)
    requires
        0 <= a <= s.len(),
        forall|j: int| 0 <= j < a ==> is_white(#[trigger] s[j]),
        a == s.len() || !is_white(s[a]),
    ensures
        trim_start(s) == s.subrange(a, s.len() as int),
    decreases a,
{
    if a > 0 {
        assert(is_white(s[0]));
        let t = s.drop_first();
        assert forall|j: int| 0 <= j < a - 1 implies is_white(#[trigger] t[j]) by {
            assert(is_white(s[j + 1]));
        }
        lemma_trim_start_at(t, a - 1);
        assert(t.subrange(a - 1, t.len() as int) =~= s.subrange(a, s.len() as int));
    } else {
        assert(s.subrange(0, s.len() as int) =~= s);
    }
}

proof fn lemma_trim_end_at(s: Seq<char>, b: int)
    requires
        0 <= b <= s.len(),
        forall|j: int| b <= j < s.len() ==> is_white(#[trigger] s[j]),
        b == 0 || !is_white(s[b - 1]),
    ensures
        trim_end(s) == s.subrange(0, b),
    decreases s.len() - b,
{
    if b < s.len() {
        assert(is_white(s[s.len() - 1]));
        let t = s.drop_last();
        assert forall|j: int| b <= j < t.len() implies is_white(#[trigger] t[j]) by {
            assert(is_white(s[j]));
        }
        lemma_trim_end_at(t, b);
        assert(t.subrange(0, b) =~= s.subrange(0, b));
    } else {
        assert(s.subrange(0, b) =~= s);
    }
}

proof fn lemma_without_white_trim_start(s: Seq<char>)
    ensures
        without_white(trim_start(s)) == without_white(s),
    decreases s.len(),
{
    if s.len() > 0 && is_white(s[0]) {
        let t = s.drop_first();
        lemma_without_white_trim_start(t);
        assert(s =~= seq![s[0]] + t);
        t.lemma_filter_prepend(s[0], visible_pred());
        assert(without_white(s) =~= without_white(t));
    }
}

proof fn lemma_without_white_trim_end(s: Seq<char>)
    ensures
        without_white(trim_end(s)) == without_white(s),
    decreases s.len(),
{
    if s.len() > 0 && is_white(s.last()) {
        let t = s.drop_last();
        lemma_without_white_trim_end(t);
        assert(s =~= t.push(s.last()));
        t.lemma_filter_push(s.last(), visible_pred());
    }
}

proof fn lemma_lower_commutes_with_removal(s: Seq<char>)
    ensures
        without_white(lower_ascii(s)) == lower_ascii(without_white(s)),
    decreases s.len(),
{
    if s.len() > 0 {
        let t = s.drop_last();
        let c = s.last();
        lemma_lower_commutes_with_removal(t);
        assert(s =~= t.push(c));
        assert(lower_ascii(s) =~= lower_ascii(t).push(ascii_lower(c)));
        lower_ascii(t).lemma_filter_push(ascii_lower(c), visible_pred());
        t.lemma_filter_push(c, visible_pred());
        assert(is_white(ascii_lower(c)) == is_white(c));
        if !is_white(c) {
            assert(lower_ascii(without_white(t).push(c)) =~= lower_ascii(without_white(t)).push(
                ascii_lower(c),
            ));
        }
    } else {
        assert(without_white(lower_ascii(s)) =~= lower_ascii(without_white(s)));
    }
}

/// Names are told apart by their non-whitespace characters alone: two names in ASCII whose
/// characters other than whitespace agree have the same canonical form, wherever the
/// whitespace stood (leading, trailing or inside).
pub proof fn lemma_normalization_ignores_whitespace(s: Seq<char>, t: Seq<char>)
    requires
        without_white(s) == without_white(t),
    ensures
        ascii_normalized_name(s) == ascii_normalized_name(t),
{
    lemma_lower_commutes_with_removal(trimmed(s));
    lemma_lower_commutes_with_removal(trimmed(t));
    lemma_without_white_trim_start(s);
    lemma_without_white_trim_end(trim_start(s));
    lemma_without_white_trim_start(t);
    lemma_without_white_trim_end(trim_start(t));
}

/// The text without whitespace at either end.
pub fn trim_text(s: &str) -> (r: String)
    ensures
        r@ == trimmed(s@),
{
    let n = s.unicode_len();
    let mut a: usize = 0;
    while a < n && is_whitespace_char(s.get_char(a))
        invariant
            n == s@.len(),
            a <= n,
            forall|j: int| 0 <= j < a ==> is_white(#[trigger] s@[j]),
        decreases n - a,
    {
        a += 1;
    }
    let mut b: usize = n;
    while b > a && is_whitespace_char(s.get_char(b - 1))
        invariant
            n == s@.len(),
            a <= b <= n,
            forall|j: int| b <= j < n ==> is_white(#[trigger] s@[j]),
        decreases b,
    {
        b -= 1;
    }
    proof {
        lemma_trim_start_at(s@, a as int);
        let t = s@.subrange(a as int, n as int);
        assert forall|j: int| b - a <= j < t.len() implies is_white(#[trigger] t[j]) by {
            assert(is_white(s@[j + a]));
        }
        lemma_trim_end_at(t, b - a);
        assert(t.subrange(0, b - a) =~= s@.subrange(a as int, b as int));
    }
    String::from_str(s.substring_char(a, b))
}

/// The text with every whitespace character removed.
pub fn remove_whitespace(s: &str) -> (r: String)
    ensures
        r@ == without_white(s@),
{
    let n = s.unicode_len();
    let mut out = String::new();
    let mut i: usize = 0;
    while i < n
        invariant
            n == s@.len(),
            i <= n,
            out@ == without_white(s@.take(i as int)),
        decreases n - i,
    {
        let c = s.get_char(i);
        proof {
            assert(s@.take(i as int + 1) =~= s@.take(i as int).push(c));
            s@.take(i as int).lemma_filter_push(c, visible_pred());
        }
        if !is_whitespace_char(c) {
            push_char(&mut out, c);
        }
        i += 1;
    }
    proof {
        assert(s@.take(n as int) =~= s@);
    }
    out
}

/// Brings a lookup name to canonical form: trimmed, lowercased, all whitespace removed.
pub fn normalize_name(s: &str) -> (r: String)
    ensures
        r@ == normalized_name(s@),
        all_ascii(s@) ==> r@ == ascii_normalized_name(s@),
{
    let t = trim_text(s);
    proof {
        if all_ascii(s@) {
            lemma_trimmed_is_slice(s@);
        }
    }
    let l = lowercase(t.as_str());
    remove_whitespace(l.as_str())
}

proof fn lemma_trimmed_is_slice(s: Seq<char>)
    requires
        all_ascii(s),
    ensures
        all_ascii(trimmed(s)),
{
    lemma_trim_start_ascii(s);
    lemma_trim_end_ascii(trim_start(s));
}

proof fn lemma_trim_start_ascii(s: Seq<char>)
    requires
        all_ascii(s),
    ensures
        all_ascii(trim_start(s)),
    decreases s.len(),
{
    if s.len() > 0 && is_white(s[0]) {
        let t = s.drop_first();
        assert forall|k: int| 0 <= k < t.len() implies is_ascii_char(#[trigger] t[k]) by {
            assert(is_ascii_char(s[k + 1]));
        }
        lemma_trim_start_ascii(t);
    }
}

proof fn lemma_trim_end_ascii(s: Seq<char>)
    requires
        all_ascii(s),
    ensures
        all_ascii(trim_end(s)),
    decreases s.len(),
{
    if s.len() > 0 && is_white(s.last()) {
        let t = s.drop_last();
        assert forall|k: int| 0 <= k < t.len() implies is_ascii_char(#[trigger] t[k]) by {
            assert(is_ascii_char(s[k]));
        }
        lemma_trim_end_ascii(t);
    }
}

proof fn lemma_unescape_keeps_plain(s: Seq<char>, i: int)
    requires
        is_plain_ascii(s),
    ensures
        is_plain_ascii(unescape_form_feeds_from(s, i)),
    decreases s.len() - i,
{
    if 0 <= i < s.len() {
        let (head, next) = if i + 1 < s.len() && s[i] == '\\' && s[i + 1] == 'f' {
            (' ', i + 2)
        } else {
            (s[i], i + 1)
        };
        lemma_unescape_keeps_plain(s, next);
        let rest = unescape_form_feeds_from(s, next);
        let all = seq![head] + rest;
        assert(unescape_form_feeds_from(s, i) == all);
        assert forall|k: int| 0 <= k < all.len() implies is_ascii_char(#[trigger] all[k]) && (
        is_white(all[k]) ==> all[k] == ' ') by {
            if k > 0 {
                assert(all[k] == rest[k - 1]);
            }
        }
    }
}

/// A sanitized text holds only 7-bit ASCII characters, and its only whitespace character is
/// the plain space.
pub proof fn lemma_sanitized_is_plain_ascii(s: Seq<char>)
    ensures
        is_plain_ascii(sanitized(s)),
{
    let a = strip_non_ascii(s);
    assert forall|k: int| 0 <= k < a.len() implies is_ascii_char(#[trigger] a[k]) by {
        s.lemma_filter_pred(ascii_pred(), k);
    }
    let b = blank_whitespace(a);
    assert(is_plain_ascii(b));
    lemma_unescape_keeps_plain(b, 0);
}

/// Whether two texts are the same, character for character.
pub fn text_equals(a: &str, b: &str) -> (r: bool)
    ensures
        r == (a@ == b@),
{
    let n = a.unicode_len();
    if n != b.unicode_len() {
        return false;
    }
    let mut i: usize = 0;
    while i < n
        invariant
            n == a@.len(),
            n == b@.len(),
            i <= n,
            a@.take(i as int) == b@.take(i as int),
        decreases n - i,
    {
        if a.get_char(i) != b.get_char(i) {
            return false;
        }
        proof {
            assert(a@.take(i as int + 1) =~= a@.take(i as int).push(a@[i as int]));
            assert(b@.take(i as int + 1) =~= b@.take(i as int).push(b@[i as int]));
        }
        i += 1;
    }
    proof {
        assert(a@.take(n as int) =~= a@);
        assert(b@.take(n as int) =~= b@);
    }
    true
}

} // verus!
