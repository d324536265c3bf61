//! Inbound HTTP-over-UDP datagrams: a status line and the headers up to the
//! blank line that ends them.
use vstd::prelude::*;
use vstd::std_specs::iter::IteratorSpec;

verus! {

broadcast use vstd::string::group_string_axioms;

/// A received datagram, split into its status line and its headers in the
/// order received.
#[derive(Clone, Debug)]
pub struct HttpuResponse {
    status_line: String,
    headers: Vec<(String, String)>,
}

/// Why a datagram is not a response.
#[derive(Clone, Copy, Debug, PartialEq, Eq, Structural)]
pub enum FramingError {
    /// The datagram is empty.
    Empty,
    /// No blank line ends the headers.
    Unterminated,
}

pub open spec fn is_ws(c: char) -> bool {
    c == ' ' || c == '\t'
}

/// The first position in `[i, end)` that holds `c`, or `end`.
pub open spec fn find_in(s: Seq<char>, i: int, end: int, c: char) -> int
    decreases end - i,
{
    if i >= end {
        end
    } else if s[i] == c {
        i
    } else {
        find_in(s, i + 1, end, c)
    }
}

/// The first position in `[i, end)` that holds no blank, or `end`.
pub open spec fn skip_ws(s: Seq<char>, i: int, end: int) -> int
    decreases end - i,
{
    if i >= end {
        end
    } else if !is_ws(s[i]) {
        i
    } else {
        skip_ws(s, i + 1, end)
    }
}

/// The end of `[lo, j)` once trailing blanks are dropped.
pub open spec fn back_ws(s: Seq<char>, lo: int, j: int) -> int
    decreases j - lo,
{
    if j <= lo {
        lo
    } else if !is_ws(s[j - 1]) {
        j
    } else {
        back_ws(s, lo, j - 1)
    }
}

/// `s[a..b]` without leading or trailing blanks.
pub open spec fn trim_range(s: Seq<char>, a: int, b: int) -> Seq<char> {
    let x = skip_ws(s, a, b);
    s.subrange(x, back_ws(s, x, b))
}

/// The header written on `s[i..e]`: the name before the first colon and the
/// trimmed value after it; a line without a colon is a name with no value.
pub open spec fn header_at(s: Seq<char>, i: int, e: int) -> (Seq<char>, Seq<char>) {
    let c = find_in(s, i, e, ':');
    if c < e {
        (s.subrange(i, c), trim_range(s, c + 1, e))
    } else {
        (s.subrange(i, e), Seq::empty())
    }
}

/// The end of the line that starts at `i`: the next line feed, or the end.
pub open spec fn line_end(s: Seq<char>, i: int) -> int {
    let j = find_in(s, i, s.len() as int, '\n');
    if j < i { i } else { j }
}

/// The end of the line `s[i..j]` once a carriage return before the line feed
/// is dropped.
pub open spec fn content_end(s: Seq<char>, i: int, j: int) -> int {
    if j > i && s[j - 1] == '\r' { j - 1 } else { j }
}

/// The headers from position `i` up to the blank line; `None` when the text
/// ends before a blank line does.
pub open spec fn headers_from(s: Seq<char>, i: int) -> Option<Seq<(Seq<char>, Seq<char>)>>
    decreases s.len() - i,
{
    if i < 0 || i >= s.len() {
        None
    } else {
        let j = line_end(s, i);
        let e = content_end(s, i, j);
        if j >= s.len() {
            None
        } else if e == i {
            Some(Seq::empty())
        } else {
            match headers_from(s, j + 1) {
                Some(rest) => Some(seq![header_at(s, i, e)] + rest),
                None => None,
            }
        }
    }
}

/// What a datagram holds: its status line and headers, or why it holds none.
pub open spec fn parsed(s: Seq<char>) -> Result<(Seq<char>, Seq<(Seq<char>, Seq<char>)>), FramingError> {
    if s.len() == 0 {
        Err(FramingError::Empty)
    } else {
        let j = line_end(s, 0);
        if j >= s.len() {
            Err(FramingError::Unterminated)
        } else {
            match headers_from(s, j + 1) {
                Some(hs) => Ok((s.subrange(0, content_end(s, 0, j)), hs)),
                None => Err(FramingError::Unterminated),
            }
        }
    }
}

pub open spec fn headers_view(hs: Seq<(String, String)>) -> Seq<(Seq<char>, Seq<char>)> {
    hs.map_values(|h: (String, String)| (h.0@, h.1@))
}

impl View for HttpuResponse {
    type V = (Seq<char>, Seq<(Seq<char>, Seq<char>)>);

    closed spec fn view(&self) -> Self::V {
        (self.status_line@, headers_view(self.headers@))
    }
}

/// The characters of `text`, one by one.
pub fn to_chars(text: &str) -> (r: Vec<char>)
    ensures
        r@ == text@,
{
    let mut it = text.chars();
    let mut v: Vec<char> = Vec::new();
    loop
        invariant
            v@ + it.remaining() == text@,
            it.decrease() is Some,
        ensures
            v@ == text@,
        decreases it.decrease()->0,
    {
        let ghost before = it.remaining();
        match it.next() {
            Some(c) => {
                v.push(c);
                assert(v@ + it.remaining() =~= text@) by {
                    assert(before == seq![c] + it.remaining());
                }
            },
            None => {
                assert(it.remaining().len() == 0);
                assert(v@ =~= text@);
                break;
            },
        }
    }
    v
}

fn find_char(s: &Vec<char>, i: usize, end: usize, c: char) -> (r: usize)
    requires
        i <= end <= s@.len(),
    ensures
        r == find_in(s@, i as int, end as int, c),
        i <= r <= end,
{
    let mut k = i;
    while k < end
        invariant
            i <= k <= end,
            end <= s@.len(),
            find_in(s@, i as int, end as int, c) == find_in(s@, k as int, end as int, c),
        decreases end - k,
    {
        if s[k] == c {
            return k;
        }
        k = k + 1;
    }
    k
}

fn skip_blanks(s: &Vec<char>, i: usize, end: usize) -> (r: usize)
    requires
        i <= end <= s@.len(),
    ensures
        r == skip_ws(s@, i as int, end as int),
        i <= r <= end,
{
    let mut k = i;
    while k < end
        invariant
            i <= k <= end,
            end <= s@.len(),
            skip_ws(s@, i as int, end as int) == skip_ws(s@, k as int, end as int),
        decreases end - k,
    {
        if s[k] != ' ' && s[k] != '\t' {
            return k;
        }
        k = k + 1;
    }
    k
}

fn drop_blanks(s: &Vec<char>, lo: usize, j: usize) -> (r: usize)
    requires
        lo <= j <= s@.len(),
    ensures
        r == back_ws(s@, lo as int, j as int),
        lo <= r <= j,
{
    let mut k = j;
    while k > lo
        invariant
            lo <= k <= j,
            j <= s@.len(),
            back_ws(s@, lo as int, j as int) == back_ws(s@, lo as int, k as int),
        decreases k - lo,
    {
        if s[k - 1] != ' ' && s[k - 1] != '\t' {
            return k;
        }
        k = k - 1;
    }
    k
}

fn piece(text: &str, a: usize, b: usize) -> (r: String)
    requires
        a <= b <= text@.len(),
    ensures
        r@ == text@.subrange(a as int, b as int),
{
    String::from_str(text.substring_char(a, b))
}

fn header_of(text: &str, s: &Vec<char>, i: usize, e: usize) -> (r: (String, String))
    requires
        s@ == text@,
        i <= e <= s@.len(),
    ensures
        (r.0@, r.1@) == header_at(s@, i as int, e as int),
{
    let c = find_char(s, i, e, ':');
    if c < e {
        let x = skip_blanks(s, c + 1, e);
        let y = drop_blanks(s, x, e);
        (piece(text, i, c), piece(text, x, y))
    } else {
        (piece(text, i, e), String::new())
    }
}

/// Reads one datagram. Lines end in CRLF or LF; the first is the status line,
/// and each one after it up to the first blank line is a header. Fails when
/// the datagram is empty or no blank line ends the headers.
pub fn parse_response(text: &str) -> (r: Result<HttpuResponse, FramingError>)
    ensures
        match parsed(text@) {
            Ok(v) => r matches Ok(resp) && resp@ == v,
            Err(e) => r == Err::<HttpuResponse, FramingError>(e),
        },
{
    let s = to_chars(text);
    let n = s.len();
    if n == 0 {
        return Err(FramingError::Empty);
    }
    let j0 = find_char(&s, 0, n, '\n');
    if j0 >= n {
        return Err(FramingError::Unterminated);
    }
    let e0 = if j0 > 0 && s[j0 - 1] == '\r' { j0 - 1 } else { j0 };
    let status_line = piece(text, 0, e0);
    let mut headers: Vec<(String, String)> = Vec::new();
    let mut i = j0 + 1;
    let ghost start = i as int;
    loop
        invariant
            s@ == text@,
            n == s@.len(),
            start <= i <= n,
            0 < n,
            j0 < n,
            j0 as int == line_end(s@, 0),
            start == j0 + 1,
            status_line@ == s@.subrange(0, content_end(s@, 0, j0 as int)),
            headers_from(s@, start) == match headers_from(s@, i as int) {
                Some(rest) => Some(headers_view(headers@) + rest),
                None => None,
            },
        ensures
            headers_from(s@, start) == Some(headers_view(headers@)),
        decreases n - i,
    {
        if i >= n {
            return Err(FramingError::Unterminated);
        }
        let j = find_char(&s, i, n, '\n');
        if j >= n {
            return Err(FramingError::Unterminated);
        }
        let e = if j > i && s[j - 1] == '\r' { j - 1 } else { j };
        if e == i {
            assert(headers_from(s@, i as int) == Some(Seq::<(Seq<char>, Seq<char>)>::empty()));
            assert(headers_view(headers@) + Seq::<(Seq<char>, Seq<char>)>::empty() =~= headers_view(headers@));
            break;
        }
        let h = header_of(text, &s, i, e);
        let ghost old_headers = headers@;
        headers.push(h);
        proof {
            assert(headers_view(headers@) =~= headers_view(old_headers).push((h.0@, h.1@)));
            match headers_from(s@, (j + 1) as int) {
                Some(rest) => {
                    assert(headers_view(old_headers) + (seq![header_at(s@, i as int, e as int)] + rest)
                        =~= headers_view(headers@) + rest);
                },
                None => {},
            }
        }
        i = j + 1;
    }
    Ok(HttpuResponse { status_line, headers })
}

impl HttpuResponse {
    /// The status line, without its line end.
    pub fn status_line(&self) -> (r: &str)
        ensures
            r@ == self@.0,
    {
        self.status_line.as_str()
    }

    /// The number of headers.
    pub fn header_count(&self) -> (r: usize)
        ensures
            r == self@.1.len(),
    {
        self.headers.len()
    }

    /// The name and value of the header at position `i`.
    pub fn header(&self, i: usize) -> (r: (&str, &str))
        requires
            i < self@.1.len(),
        ensures
            (r.0@, r.1@) == self@.1[i as int],
    {
        (self.headers[i].0.as_str(), self.headers[i].1.as_str())
    }
}

} // verus!
