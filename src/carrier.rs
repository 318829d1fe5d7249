//! Carriers: the string-keyed bags that move trace context across a transport boundary.
use vstd::prelude::*;
use vstd::string::*;

verus! {

/// A header name or value pair as plain text.
pub type PairView = (Seq<char>, Seq<char>);

/// The text view of a list of header pairs.
pub open spec fn pairs_view(v: Seq<(String, String)>) -> Seq<PairView> {
    v.map_values(|p: (String, String)| (p.0@, p.1@))
}

/// The text view of an optional string.
pub open spec fn opt_view(o: Option<String>) -> Option<Seq<char>> {
    match o {
        Some(s) => Some(s@),
        None => None,
    }
}

/// The text view of received headers, whose values may be missing or unreadable.
pub open spec fn received_view(v: Seq<(String, Option<String>)>) -> Seq<(Seq<char>, Option<Seq<char>>)> {
    v.map_values(|p: (String, Option<String>)| (p.0@, opt_view(p.1)))
}

/// Written pairs as received: every value present.
pub open spec fn as_received(hs: Seq<PairView>) -> Seq<(Seq<char>, Option<Seq<char>>)> {
    hs.map_values(|p: PairView| (p.0, Some(p.1)))
}

/// A character code with ASCII capitals mapped to their small letters.
pub open spec fn fold_case(c: char) -> u32 {
    if 65 <= c as u32 && c as u32 <= 90 {
        (c as u32 + 32) as u32
    } else {
        c as u32
    }
}

/// Equality of two texts when ASCII letter case is ignored.
pub open spec fn eq_ignore_case(a: Seq<char>, b: Seq<char>) -> bool {
    a.len() == b.len() && forall|i: int| 0 <= i < a.len() ==> fold_case(#[trigger] a[i]) == fold_case(b[i])
}

/// The value of the first header whose name matches `key` ignoring case and whose value is
/// present and readable.
pub open spec fn first_match(hs: Seq<(Seq<char>, Option<Seq<char>>)>, key: Seq<char>) -> Option<Seq<char>>
    decreases hs.len(),
{
    if hs.len() == 0 {
        None
    } else if eq_ignore_case(hs[0].0, key) && hs[0].1 is Some {
        hs[0].1
    } else {
        first_match(hs.drop_first(), key)
    }
}

/// `hs` without the pairs whose name matches `key` ignoring case.
pub open spec fn without_name(hs: Seq<PairView>, key: Seq<char>) -> Seq<PairView>
    decreases hs.len(),
{
    if hs.len() == 0 {
        Seq::empty()
    } else {
        let rest = without_name(hs.drop_last(), key);
        if eq_ignore_case(hs.last().0, key) {
            rest
        } else {
            rest.push(hs.last())
        }
    }
}

/// An HTTP token character (RFC 9110 `tchar`).
pub open spec fn is_token_char(c: char) -> bool {
    let n = c as u32;
    (48 <= n && n <= 57) || (65 <= n && n <= 90) || (97 <= n && n <= 122) || n == 33 || n == 35
        || n == 36 || n == 37 || n == 38 || n == 39 || n == 42 || n == 43 || n == 45 || n == 46
        || n == 94 || n == 95 || n == 96 || n == 124 || n == 126
}

/// A legal header name: a non-empty token.
pub open spec fn is_header_name(s: Seq<char>) -> bool {
    s.len() > 0 && forall|i: int| 0 <= i < s.len() ==> is_token_char(#[trigger] s[i])
}

/// A legal header-value character: horizontal tab or visible ASCII and space.
pub open spec fn is_value_char(c: char) -> bool {
    c as u32 == 9 || (32 <= c as u32 && c as u32 <= 126)
}

/// A legal header value.
pub open spec fn is_header_value(s: Seq<char>) -> bool {
    forall|i: int| 0 <= i < s.len() ==> is_value_char(#[trigger] s[i])
}

/// Compares two texts ignoring ASCII letter case.
pub fn eq_ignore_ascii_case(a: &str, b: &str) -> (r: bool)
    ensures
        r == eq_ignore_case(a@, b@),
{
    let n = a.unicode_len();
    if n != b.unicode_len() {
        return false;
    }
    let mut i: usize = 0;
    while i < n
        invariant
            n == a@.len(),
            n == b@.len(),
            i <= n,
            forall|j: int| 0 <= j < i ==> fold_case(#[trigger] a@[j]) == fold_case(b@[j]),
        decreases n - i,
    {
        let x = a.get_char(i) as u32;
        let y = b.get_char(i) as u32;
        let fx = if 65 <= x && x <= 90 { x + 32 } else { x };
        let fy = if 65 <= y && y <= 90 { y + 32 } else { y };
        if fx != fy {
            assert(fold_case(a@[i as int]) != fold_case(b@[i as int]));
            return false;
        }
        i = i + 1;
    }
    true
}

fn is_header_name_text(s: &str) -> (r: bool)
    ensures
        r == is_header_name(s@),
{
    let n = s.unicode_len();
    if n == 0 {
        return false;
    }
    let mut i: usize = 0;
    while i < n
        invariant
            n == s@.len(),
            i <= n,
            forall|j: int| 0 <= j < i ==> is_token_char(#[trigger] s@[j]),
        decreases n - i,
    {
        let c = s.get_char(i) as u32;
        let ok = (48 <= c && c <= 57) || (65 <= c && c <= 90) || (97 <= c && c <= 122) || c == 33
            || c == 35 || c == 36 || c == 37 || c == 38 || c == 39 || c == 42 || c == 43 || c
            == 45 || c == 46 || c == 94 || c == 95 || c == 96 || c == 124 || c == 126;
        if !ok {
            assert(!is_token_char(s@[i as int]));
            return false;
        }
        i = i + 1;
    }
    true
}

fn is_header_value_text(s: &str) -> (r: bool)
    ensures
        r == is_header_value(s@),
{
    let n = s.unicode_len();
    let mut i: usize = 0;
    while i < n
        invariant
            n == s@.len(),
            i <= n,
            forall|j: int| 0 <= j < i ==> is_value_char(#[trigger] s@[j]),
        decreases n - i,
    {
        let c = s.get_char(i) as u32;
        if !(c == 9 || (32 <= c && c <= 126)) {
            assert(!is_value_char(s@[i as int]));
            return false;
        }
        i = i + 1;
    }
    true
}

/// Collects trace-context pairs for a queued message; they are turned into the transport's
/// headers in one batch when the message is sent.
pub struct VecInjector {
    headers: Vec<(String, String)>,
}

impl VecInjector {
    pub closed spec fn view(&self) -> Seq<PairView> {
        pairs_view(self.headers@)
    }

    pub fn new() -> (r: VecInjector)
        ensures
            r.view() == Seq::<PairView>::empty(),
    {
        VecInjector { headers: Vec::new() }
    }

    /// Appends one pair.
    pub fn set(&mut self, key: &str, value: String)
        ensures
            final(self).view() == old(self).view().push((key@, value@)),
    {
        let ghost before = self.headers@;
        self.headers.push((key.to_owned(), value));
        assert(pairs_view(self.headers@) =~= pairs_view(before).push((key@, value@)));
    }

    /// The collected pairs, in the order they were set.
    pub fn headers(&self) -> (r: &Vec<(String, String)>)
        ensures
            pairs_view(r@) == self.view(),
    {
        &self.headers
    }

    /// Hands the collected pairs over as the message's header list.
    pub fn into_owned_headers(self) -> (r: Vec<(String, String)>)
        ensures
            pairs_view(r@) == self.view(),
    {
        self.headers
    }
}

/// The kinds of illegal header text.
#[derive(Clone, Copy, Debug, PartialEq, Eq, Structural)]
pub enum CarrierError {
    InvalidHeaderName,
    InvalidHeaderValue,
}

/// The headers of an outbound HTTP request, written through the injector role: a name is
/// held at most once, ignoring letter case, and a new value replaces an old one.
pub struct RequestCarrier {
    headers: Vec<(String, String)>,
}

impl RequestCarrier {
    pub closed spec fn view(&self) -> Seq<PairView> {
        pairs_view(self.headers@)
    }

    pub fn new() -> (r: RequestCarrier)
        ensures
            r.view() == Seq::<PairView>::empty(),
    {
        RequestCarrier { headers: Vec::new() }
    }

    /// The request's headers, in order.
    pub fn headers(&self) -> (r: &Vec<(String, String)>)
        ensures
            pairs_view(r@) == self.view(),
    {
        &self.headers
    }

    /// Inserts or overwrites a header. An illegal name or value fails the operation and
    /// leaves the headers as they were.
    pub fn set(&mut self, key: &str, value: String) -> (r: Result<(), CarrierError>)
        ensures
            r == (if !is_header_name(key@) {
                Err::<(), CarrierError>(CarrierError::InvalidHeaderName)
            } else if !is_header_value(value@) {
                Err(CarrierError::InvalidHeaderValue)
            } else {
                Ok(())
            }),
            r is Ok ==> final(self).view() == without_name(old(self).view(), key@).push(
                (key@, value@),
            ),
            r is Err ==> final(self).view() == old(self).view(),
    {
        if !is_header_name_text(key) {
            return Err(CarrierError::InvalidHeaderName);
        }
        if !is_header_value_text(value.as_str()) {
            return Err(CarrierError::InvalidHeaderValue);
        }
        let ghost old_view = self.view();
        let mut kept: Vec<(String, String)> = Vec::new();
        let mut i: usize = 0;
        while i < self.headers.len()
            invariant
                i <= self.headers@.len(),
                old_view == pairs_view(self.headers@),
                pairs_view(kept@) == without_name(old_view.take(i as int), key@),
            decreases self.headers@.len() - i,
        {
            let name = self.headers[i].0.clone();
            let val = self.headers[i].1.clone();
            proof {
                assert(old_view.take(i + 1).drop_last() =~= old_view.take(i as int));
                assert(old_view.take(i + 1).last() == (name@, val@));
            }
            if !eq_ignore_ascii_case(name.as_str(), key) {
                let ghost prev = kept@;
                kept.push((name, val));
                assert(pairs_view(kept@) =~= pairs_view(prev).push((name@, val@)));
            }
            i = i + 1;
        }
        assert(old_view.take(self.headers@.len() as int) =~= old_view);
        let ghost prev = kept@;
        kept.push((key.to_owned(), value));
        assert(pairs_view(kept@) =~= pairs_view(prev).push((key@, value@)));
        self.headers = kept;
        Ok(())
    }
}

/// Read-only access to received headers (of an HTTP request or of a message). The whole
/// collection may be absent; a value may be absent or unreadable as text.
pub struct HeaderExtractor {
    headers: Option<Vec<(String, Option<String>)>>,
}

impl HeaderExtractor {
    pub closed spec fn view(&self) -> Seq<(Seq<char>, Option<Seq<char>>)> {
        match self.headers {
            Some(v) => received_view(v@),
            None => Seq::empty(),
        }
    }

    pub fn new(headers: Option<Vec<(String, Option<String>)>>) -> (r: HeaderExtractor)
        ensures
            r.view() == (match headers {
                Some(v) => received_view(v@),
                None => Seq::empty(),
            }),
    {
        HeaderExtractor { headers }
    }

    /// An extractor over pairs whose values are all present.
    pub fn from_pairs(pairs: Vec<(String, String)>) -> (r: HeaderExtractor)
        ensures
            r.view() == as_received(pairs_view(pairs@)),
    {
        let mut out: Vec<(String, Option<String>)> = Vec::new();
        let mut i: usize = 0;
        while i < pairs.len()
            invariant
                i <= pairs@.len(),
                received_view(out@) =~= as_received(pairs_view(pairs@)).take(i as int),
            decreases pairs@.len() - i,
        {
            let k = pairs[i].0.clone();
            let v = pairs[i].1.clone();
            let ghost prev = out@;
            out.push((k, Some(v)));
            assert(received_view(out@) =~= received_view(prev).push((k@, Some(v@))));
            assert(as_received(pairs_view(pairs@)).take(i + 1) =~= as_received(pairs_view(pairs@)).take(i as int).push((k@, Some(v@))));
            i = i + 1;
        }
        assert(as_received(pairs_view(pairs@)).take(pairs@.len() as int) =~= as_received(pairs_view(pairs@)));
        HeaderExtractor { headers: Some(out) }
    }

    /// The value of the first header named `key`, ignoring letter case, that has a readable
    /// value.
    pub fn get(&self, key: &str) -> (r: Option<String>)
        ensures
            opt_view(r) == first_match(self.view(), key@),
    {
        match &self.headers {
            None => None,
            Some(hs) => {
                let ghost all = self.view();
                let mut i: usize = 0;
                assert(all.subrange(0, all.len() as int) =~= all);
                while i < hs.len()
                    invariant
                        i <= hs@.len(),
                        all == received_view(hs@),
                        all == self.view(),
                        first_match(all, key@) == first_match(all.subrange(i as int, all.len() as int), key@),
                    decreases hs@.len() - i,
                {
                    let ghost rest = all.subrange(i as int, all.len() as int);
                    assert(rest.drop_first() =~= all.subrange(i + 1, all.len() as int));
                    assert(rest[0] == (hs@[i as int].0@, opt_view(hs@[i as int].1)));
                    if eq_ignore_ascii_case(hs[i].0.as_str(), key) {
                        match &hs[i].1 {
                            Some(v) => {
                                let r = v.clone();
                                assert(rest.len() > 0);
                                assert(hs@[i as int].1 == Some(*v));
                                assert(rest[0].1 == Some(r@));
                                assert(eq_ignore_case(rest[0].0, key@));
                                assert(first_match(rest, key@) == Some(r@));
                                return Some(r);
                            },
                            None => {},
                        }
                    }
                    i = i + 1;
                }
                None
            },
        }
    }

    /// Every header name present, in order; none when the collection is absent.
    pub fn keys(&self) -> (r: Vec<String>)
        ensures
            r@.len() == self.view().len(),
            forall|i: int| 0 <= i < r@.len() ==> (#[trigger] r@[i])@ == self.view()[i].0,
    {
        let mut out: Vec<String> = Vec::new();
        match &self.headers {
            None => {},
            Some(hs) => {
                let mut i: usize = 0;
                while i < hs.len()
                    invariant
                        i <= hs@.len(),
                        self.view() == received_view(hs@),
                        out@.len() == i,
                        forall|j: int| 0 <= j < i ==> (#[trigger] out@[j])@ == self.view()[j].0,
                    decreases hs@.len() - i,
                {
                    out.push(hs[i].0.clone());
                    i = i + 1;
                }
            },
        }
        out
    }
}

} // verus!
