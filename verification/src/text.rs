use vstd::prelude::*;
use vstd::string::StrSliceExecFns;
use vstd::string::StringExecFns;

verus! {

/// Whether two texts are the same.
pub fn same_text(a: &str, b: &str) -> (r: bool)
    ensures
        r == (a@ == b@),
{
    let n = a.unicode_len();
    if n != b.unicode_len() {
        return false;
    }
    let mut i: usize = 0;
    while i < n
        invariant
            i <= n,
            n == a@.len(),
            n == b@.len(),
            forall|k: int| 0 <= k < i ==> a@[k] == b@[k],
        decreases n - i,
    {
        if a.get_char(i) != b.get_char(i) {
            return false;
        }
        i += 1;
    }
    assert(a@ =~= b@);
    true
}

/// Whether `text` begins with `prefix`.
pub fn starts_with(text: &str, prefix: &str) -> (r: bool)
    ensures
        r == prefix@.is_prefix_of(text@),
{
    let n = text.unicode_len();
    let m = prefix.unicode_len();
    if m > n {
        return false;
    }
    let head = text.substring_char(0, m);
    assert(prefix@.is_prefix_of(text@) <==> head@ == prefix@) by {
        if head@ == prefix@ {
            assert(prefix@ =~= text@.subrange(0, prefix@.len() as int));
        }
    }
    same_text(head, prefix)
}

/// Whether `text` ends with `suffix`.
pub fn ends_with(text: &str, suffix: &str) -> (r: bool)
    ensures
        r == suffix@.is_suffix_of(text@),
{
    let n = text.unicode_len();
    let m = suffix.unicode_len();
    if m > n {
        return false;
    }
    let tail = text.substring_char(n - m, n);
    assert(suffix@.is_suffix_of(text@) <==> tail@ == suffix@) by {
        if tail@ == suffix@ {
            assert(suffix@ =~= text@.subrange(text@.len() - suffix@.len(), text@.len() as int));
        }
    }
    same_text(tail, suffix)
}

/// Whether `part` occurs in `text` at the position `at`.
pub open spec fn occurs_at(text: Seq<char>, part: Seq<char>, at: int) -> bool {
    0 <= at && at + part.len() <= text.len() && text.subrange(at, at + part.len()) == part
}

/// Whether `part` occurs somewhere in `text`.
pub open spec fn occurs_in(text: Seq<char>, part: Seq<char>) -> bool {
    exists|at: int| occurs_at(text, part, at)
}

/// Whether `part` occurs in `text`.
pub fn contains(text: &str, part: &str) -> (r: bool)
    ensures
        r == occurs_in(text@, part@),
{
    let n = text.unicode_len();
    let m = part.unicode_len();
    if m > n {
        assert(!occurs_in(text@, part@)) by {
            assert forall|at: int| !occurs_at(text@, part@, at) by {}
        }
        return false;
    }
    let mut at: usize = 0;
    loop
        invariant
            m <= n,
            n == text@.len(),
            m == part@.len(),
            at <= n - m,
            forall|k: int| 0 <= k < at ==> !occurs_at(text@, part@, k),
        ensures
            at == n - m,
            forall|k: int| 0 <= k <= at ==> !occurs_at(text@, part@, k),
        decreases n - m - at,
    {
        let window = text.substring_char(at, at + m);
        if same_text(window, part) {
            assert(occurs_at(text@, part@, at as int));
            return true;
        }
        if at == n - m {
            break ;
        }
        at += 1;
    }
    assert(!occurs_in(text@, part@)) by {
        assert forall|k: int| !occurs_at(text@, part@, k) by {}
    }
    false
}

/// The text of `a` followed by that of `b`.
pub fn concat(a: &str, b: &str) -> (r: String)
    ensures
        r@ == a@ + b@,
{
    let mut r = String::from_str(a);
    r.append(b);
    r
}

/// The position of the first `c` in `text`; the length of `text` where
/// there is none.
pub open spec fn first_index(text: Seq<char>, c: char) -> int
    decreases text.len(),
{
    if text.len() == 0 {
        0
    } else if text[0] == c {
        0
    } else {
        1 + first_index(text.skip(1), c)
    }
}

pub proof fn lemma_first_index(text: Seq<char>, c: char)
    ensures
        0 <= first_index(text, c) <= text.len(),
        first_index(text, c) < text.len() ==> text[first_index(text, c)] == c,
        forall|j: int| 0 <= j < first_index(text, c) ==> text[j] != c,
    decreases text.len(),
{
    if text.len() > 0 && text[0] != c {
        lemma_first_index(text.skip(1), c);
        assert forall|j: int| 0 <= j < first_index(text, c) implies text[j] != c by {
            if j > 0 {
                assert(text.skip(1)[j - 1] == text[j]);
            }
        }
    }
}

/// `text` cut at its first `sep`: what stands before it and what stands
/// after it; `text` alone where it holds no `sep`.
pub open spec fn split_first(text: Seq<char>, sep: char) -> Seq<Seq<char>> {
    let i = first_index(text, sep);
    if 0 <= i < text.len() {
        seq![text.take(i), text.skip(i + 1)]
    } else {
        seq![text]
    }
}

/// `text` cut at every `sep`: the parts between them, in order, empty ones
/// too.
pub open spec fn split_all(text: Seq<char>, sep: char) -> Seq<Seq<char>>
    decreases text.len(),
{
    let i = first_index(text, sep);
    if 0 <= i < text.len() {
        seq![text.take(i)] + split_all(text.skip(i + 1), sep)
    } else {
        seq![text]
    }
}

/// Cutting a text gives at least one part.
pub proof fn lemma_split_all_nonempty(text: Seq<char>, sep: char)
    ensures
        split_all(text, sep).len() >= 1,
    decreases text.len(),
{
    let i = first_index(text, sep);
    if 0 <= i < text.len() {
        lemma_split_all_nonempty(text.skip(i + 1), sep);
    }
}

/// Whether a character is white space: a blank, a tab, a line end, or one
/// of the other spaces that Unicode lists as such.
pub open spec fn is_space(c: char) -> bool {
    let code = c as u32;
    ||| 0x09 <= code <= 0x0d
    ||| code == 0x20
    ||| code == 0x85
    ||| code == 0xa0
    ||| code == 0x1680
    ||| 0x2000 <= code <= 0x200a
    ||| code == 0x2028
    ||| code == 0x2029
    ||| code == 0x202f
    ||| code == 0x205f
    ||| code == 0x3000
}

/// `text` without the white space at its end.
pub open spec fn trimmed_end(text: Seq<char>) -> Seq<char>
    decreases text.len(),
{
    if text.len() > 0 && is_space(text.last()) {
        trimmed_end(text.drop_last())
    } else {
        text
    }
}

/// `text` without the white space at its beginning.
pub open spec fn trimmed_start(text: Seq<char>) -> Seq<char>
    decreases text.len(),
{
    if text.len() > 0 && is_space(text[0]) {
        trimmed_start(text.skip(1))
    } else {
        text
    }
}

/// `text` without the white space at its two ends.
pub open spec fn trimmed(text: Seq<char>) -> Seq<char> {
    trimmed_end(trimmed_start(text))
}

/// What is left of a text without the white space at its end is its
/// beginning.
pub proof fn lemma_trimmed_end_is_prefix(text: Seq<char>)
    ensures
        trimmed_end(text).is_prefix_of(text),
    decreases text.len(),
{
    if text.len() > 0 && is_space(text.last()) {
        lemma_trimmed_end_is_prefix(text.drop_last());
        let t = trimmed_end(text.drop_last());
        assert(t =~= text.subrange(0, t.len() as int));
    } else {
        assert(text =~= text.subrange(0, text.len() as int));
    }
}

fn is_white(c: char) -> (b: bool)
    ensures
        b == is_space(c),
{
    let code = c as u32;
    (0x09 <= code && code <= 0x0d) || code == 0x20 || code == 0x85 || code == 0xa0 || code == 0x1680 || (
    0x2000 <= code && code <= 0x200a) || code == 0x2028 || code == 0x2029 || code == 0x202f || code
        == 0x205f || code == 0x3000
}

/// Where the text without the white space at its end stops.
fn end_of(text: &str, from: usize) -> (end: usize)
    requires
        from <= text@.len(),
    ensures
        from <= end <= text@.len(),
        text@.subrange(from as int, end as int) == trimmed_end(text@.skip(from as int)),
{
    let n = text.unicode_len();
    let mut end = n;
    assert(text@.subrange(from as int, n as int) =~= text@.skip(from as int));
    while end > from && is_white(text.get_char(end - 1))
        invariant
            from <= end <= n,
            n == text@.len(),
            trimmed_end(text@.skip(from as int)) == trimmed_end(text@.subrange(from as int, end as int)),
        decreases end,
    {
        assert(text@.subrange(from as int, end as int).drop_last() =~= text@.subrange(
            from as int,
            end as int - 1,
        ));
        end -= 1;
    }
    end
}

/// Where the text without the white space at its beginning starts.
fn start_of(text: &str) -> (start: usize)
    ensures
        start <= text@.len(),
        text@.skip(start as int) == trimmed_start(text@),
{
    let n = text.unicode_len();
    let mut start: usize = 0;
    assert(text@.skip(0) =~= text@);
    while start < n && is_white(text.get_char(start))
        invariant
            start <= n,
            n == text@.len(),
            trimmed_start(text@) == trimmed_start(text@.skip(start as int)),
        decreases n - start,
    {
        assert(text@.skip(start as int).skip(1) =~= text@.skip(start as int + 1));
        start += 1;
    }
    start
}

/// A line without the carriage return at its end.
pub open spec fn without_return(line: Seq<char>) -> Seq<char> {
    if line.len() > 0 && line.last() == '\r' {
        line.drop_last()
    } else {
        line
    }
}

/// The lines of `text`: what stands between its line feeds, each without a
/// carriage return before the line feed; what follows the last line feed is
/// a line as it stands, unless it is empty.
pub open spec fn lines_of(text: Seq<char>) -> Seq<Seq<char>> {
    let pieces = split_all(text, '\n');
    let ended = Seq::new((pieces.len() - 1) as nat, |i: int| without_return(pieces[i]));
    if pieces.last().len() == 0 {
        ended
    } else {
        ended.push(pieces.last())
    }
}

/// Where the first `sep` stands, when it is known to stand at `k` with no
/// `sep` before it.
pub proof fn lemma_first_index_is(text: Seq<char>, sep: char, k: int)
    requires
        0 <= k <= text.len(),
        k < text.len() ==> text[k] == sep,
        forall|j: int| 0 <= j < k ==> text[j] != sep,
    ensures
        first_index(text, sep) == k,
    decreases k,
{
    if k > 0 {
        let rest = text.skip(1);
        assert forall|j: int| 0 <= j < k - 1 implies rest[j] != sep by {
            assert(rest[j] == text[j + 1]);
        }
        lemma_first_index_is(rest, sep, k - 1);
    }
}

/// The parts of `text` between the occurrences of `sep`, empty ones too.
pub fn split_on(text: &str, sep: char) -> (parts: Vec<String>)
    ensures
        parts.deep_view() == split_all(text@, sep),
{
    let n = text.unicode_len();
    let mut parts: Vec<String> = Vec::new();
    let mut start: usize = 0;
    let mut i: usize = 0;
    assert(parts.deep_view() + split_all(text@.skip(0), sep) =~= split_all(text@, sep)) by {
        assert(text@.skip(0) =~= text@);
    }
    while i < n
        invariant
            n == text@.len(),
            start <= i <= n,
            split_all(text@, sep) == parts.deep_view() + split_all(text@.skip(start as int), sep),
            forall|j: int| start <= j < i ==> text@[j] != sep,
        decreases n - i,
    {
        if text.get_char(i) == sep {
            let ghost rest = text@.skip(start as int);
            let ghost before = parts.deep_view();
            proof {
                assert forall|j: int| 0 <= j < i - start implies rest[j] != sep by {
                    assert(rest[j] == text@[start + j]);
                }
                lemma_first_index_is(rest, sep, i - start);
                assert(rest.take(i - start) =~= text@.subrange(start as int, i as int));
                assert(rest.skip(i - start + 1) =~= text@.skip(i as int + 1));
            }
            let piece = text.substring_char(start, i);
            parts.push(String::from_str(piece));
            assert(parts.deep_view() =~= before.push(piece@));
            assert(before + (seq![piece@] + split_all(text@.skip(i as int + 1), sep)) =~= before.push(
                piece@,
            ) + split_all(text@.skip(i as int + 1), sep));
            start = i + 1;
        }
        i += 1;
    }
    let ghost rest = text@.skip(start as int);
    let ghost before = parts.deep_view();
    proof {
        assert forall|j: int| 0 <= j < rest.len() implies rest[j] != sep by {
            assert(rest[j] == text@[start + j]);
        }
        lemma_first_index_is(rest, sep, rest.len() as int);
    }
    let piece = text.substring_char(start, n);
    assert(piece@ =~= rest);
    parts.push(String::from_str(piece));
    assert(parts.deep_view() =~= before.push(piece@));
    assert(before + seq![rest] =~= before.push(rest));
    parts
}

/// `text` cut at its first `sep`.
pub fn split_in_two(text: &str, sep: char) -> (parts: Vec<String>)
    ensures
        parts.deep_view() == split_first(text@, sep),
{
    let mut pieces = split_on(text, sep);
    proof {
        lemma_first_index(text@, sep);
        lemma_split_all_nonempty(text@, sep);
    }
    let ghost all = pieces.deep_view();
    assert(all.len() == pieces@.len());
    assert(all[0] == pieces@[0]@);
    let mut parts: Vec<String> = Vec::new();
    if pieces.len() <= 1 {
        parts.push(String::from_str(text));
        assert(parts.deep_view() =~= seq![text@]);
        proof {
            let i = first_index(text@, sep);
            if 0 <= i < text@.len() {
                lemma_split_all_nonempty(text@.skip(i + 1), sep);
            }
        }
        return parts;
    }
    let i = pieces[0].as_str().unicode_len();
    let n = text.unicode_len();
    proof {
        let k = first_index(text@, sep);
        if !(0 <= k < text@.len()) {
            assert(split_all(text@, sep) =~= seq![text@]);
        }
        assert(all[0] == text@.take(k));
    }
    let rest = text.substring_char(i + 1, n);
    assert(rest@ =~= text@.skip(i as int + 1));
    parts.push(String::from_str(pieces[0].as_str()));
    parts.push(String::from_str(rest));
    assert(parts.deep_view() =~= seq![text@.take(i as int), text@.skip(i as int + 1)]);
    parts
}

/// `text` without the white space at its two ends.
pub fn trim(text: &str) -> (r: String)
    ensures
        r@ == trimmed(text@),
{
    let start = start_of(text);
    let end = end_of(text, start);
    String::from_str(text.substring_char(start, end))
}

/// The lines of `text`.
pub fn lines(text: &str) -> (r: Vec<String>)
    ensures
        r.deep_view() == lines_of(text@),
{
    let mut pieces = split_on(text, '\n');
    proof {
        lemma_split_all_nonempty(text@, '\n');
    }
    let ghost all = pieces.deep_view();
    assert(all.len() == pieces@.len());
    assert(all.last() == pieces@.last()@);
    let last = pieces.pop().unwrap();
    let mut out: Vec<String> = Vec::new();
    let mut i: usize = 0;
    while i < pieces.len()
        invariant
            i <= pieces.len(),
            pieces@.len() == all.len() - 1,
            forall|k: int| 0 <= k < pieces@.len() ==> (#[trigger] pieces@[k])@ == all[k],
            out@.len() == i,
            forall|k: int| 0 <= k < i ==> (#[trigger] out@[k])@ == without_return(all[k]),
        decreases pieces.len() - i,
    {
        let piece = pieces[i].as_str();
        proof {
            reveal_strlit("\r");
            assert("\r"@ =~= seq!['\r']);
        }
        assert(piece@ == all[i as int]);
        if ends_with(piece, "\r") {
            let n = piece.unicode_len();
            assert(seq!['\r'].is_suffix_of(piece@));
            assert(piece@.len() >= 1);
            assert(piece@.subrange(piece@.len() - 1, piece@.len() as int)[0] == piece@.last());
            assert(piece@.last() == '\r');
            let line = piece.substring_char(0, n - 1);
            assert(line@ =~= piece@.drop_last());
            assert(line@ == without_return(piece@));
            out.push(String::from_str(line));
        } else {
            assert(!seq!['\r'].is_suffix_of(piece@));
            proof {
                if piece@.len() > 0 && piece@.last() == '\r' {
                    assert(piece@.subrange(piece@.len() - 1, piece@.len() as int) =~= seq!['\r']);
                    assert(seq!['\r'].is_suffix_of(piece@));
                }
            }
            assert(piece@ == without_return(piece@));
            out.push(String::from_str(piece));
        }
        i += 1;
    }
    let ghost ended = Seq::new((all.len() - 1) as nat, |k: int| without_return(all[k]));
    assert(out.deep_view() =~= ended);
    if last.as_str().unicode_len() > 0 {
        let ghost before = out.deep_view();
        out.push(last);
        assert(out.deep_view() =~= before.push(all.last()));
    }
    out
}

/// `text` without the white space at its end.
pub fn trim_end(text: &str) -> (r: String)
    ensures
        r@ == trimmed_end(text@),
        r@.is_prefix_of(text@),
{
    assert(text@.skip(0) =~= text@);
    let end = end_of(text, 0);
    proof {
        lemma_trimmed_end_is_prefix(text@);
    }
    String::from_str(text.substring_char(0, end))
}

/// The segments of the path of an address, as the `url` crate reads them;
/// `None` of a text that is no address, or of an address that cannot be a
/// base.
pub uninterp spec fn url_path_segments(address: Seq<char>) -> Option<Seq<Seq<char>>>;

/// The segments of the path of an address.
///
/// Calls `Url::parse` and, on the address it gives, `Url::path_segments`. The
/// result is a function of the text alone; the contract gives it the name
/// `url_path_segments`.
#[verifier::external_body]
pub(crate) fn path_segments(address: &str) -> (r: Option<Vec<String>>)
    ensures
        r.deep_view() == url_path_segments(address@),
{
    let url = url::Url::parse(address).ok()?;
    Some(url.path_segments()?.map(|segment| segment.to_string()).collect())
}

/// `text` with its HTML entities replaced by what they stand for, as
/// `html_escape` decodes them.
pub uninterp spec fn html_decoded(text: Seq<char>) -> Seq<char>;

/// Decodes the HTML entities of a text with
/// `html_escape::decode_html_entities`. The result is a function of the text
/// alone; the contract gives it the name `html_decoded`.
#[verifier::external_body]
pub(crate) fn decode_html(text: &str) -> (r: String)
    ensures
        r@ == html_decoded(text@),
{
    html_escape::decode_html_entities(text).into_owned()
}

/// The last of the segments of the path of an address.
pub open spec fn last_segment(address: Seq<char>) -> Option<Seq<char>> {
    match url_path_segments(address) {
        Some(segments) => if segments.len() > 0 {
            Some(segments.last())
        } else {
            None
        },
        None => None,
    }
}

/// The last of the segments of the path of an address: the name of the
/// file that the address names.
pub fn last_path_segment(address: &str) -> (r: Option<String>)
    ensures
        r.deep_view() == last_segment(address@),
{
    match path_segments(address) {
        Some(segments) => {
            let mut segments = segments;
            assert(segments.deep_view().len() == segments@.len());
            if segments.len() > 0 {
                assert(segments.deep_view().last() == segments@.last()@);
                segments.pop()
            } else {
                None
            }
        },
        None => None,
    }
}

/// `text` with every occurrence of `from` replaced by `to`, the
/// occurrences taken from the left and never overlapping. An empty `from`
/// occurs nowhere.
pub open spec fn replaced(text: Seq<char>, from: Seq<char>, to: Seq<char>) -> Seq<char>
    decreases text.len(),
{
    if from.len() == 0 || text.len() < from.len() {
        text
    } else if from.is_prefix_of(text) {
        to + replaced(text.skip(from.len() as int), from, to)
    } else {
        seq![text[0]] + replaced(text.skip(1), from, to)
    }
}

/// `text` with every occurrence of `from` replaced by `to`.
pub fn replace(text: &str, from: &str, to: &str) -> (r: String)
    ensures
        r@ == replaced(text@, from@, to@),
{
    let n = text.unicode_len();
    let m = from.unicode_len();
    if m == 0 || n < m {
        return String::from_str(text);
    }
    let mut out = String::new();
    let mut i: usize = 0;
    assert(out@ + replaced(text@.skip(0), from@, to@) =~= replaced(text@, from@, to@)) by {
        assert(text@.skip(0) =~= text@);
    }
    while i <= n - m
        invariant
            n == text@.len(),
            m == from@.len(),
            0 < m <= n,
            i <= n,
            replaced(text@, from@, to@) == out@ + replaced(text@.skip(i as int), from@, to@),
        decreases n - i,
    {
        let ghost rest = text@.skip(i as int);
        let ghost before = out@;
        let window = text.substring_char(i, i + m);
        assert(window@ =~= rest.subrange(0, m as int));
        if same_text(window, from) {
            assert(from@.is_prefix_of(rest));
            out.append(to);
            assert(rest.skip(m as int) =~= text@.skip(i as int + m as int));
            assert(before + (to@ + replaced(rest.skip(m as int), from@, to@)) =~= (before + to@)
                + replaced(rest.skip(m as int), from@, to@));
            i += m;
        } else {
            assert(!from@.is_prefix_of(rest)) by {
                if from@.is_prefix_of(rest) {
                    assert(from@ =~= rest.subrange(0, m as int));
                }
            }
            let one = text.substring_char(i, i + 1);
            assert(one@ =~= seq![rest[0]]);
            out.append(one);
            assert(rest.skip(1) =~= text@.skip(i as int + 1));
            assert(before + (seq![rest[0]] + replaced(rest.skip(1), from@, to@)) =~= (before + seq![
                rest[0],
            ]) + replaced(rest.skip(1), from@, to@));
            i += 1;
        }
    }
    let tail = text.substring_char(i, n);
    assert(tail@ =~= text@.skip(i as int));
    out.append(tail);
    out
}

} // verus!
