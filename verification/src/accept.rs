//! Content negotiation: parsing the Accept header and choosing an encoding.
//!
//! An Accept header is a comma-separated list of media types. Each entry is
//! trimmed of surrounding blanks and lowercased; an entry that is not shaped
//! like a media type — a nonempty type and subtype around a slash — refuses
//! the whole header. Selection is a pure function of the parsed header: the
//! binary media type present means the compact-binary encoding, anything else
//! the structured-text one.

use vstd::prelude::*;
use vstd::string::StringSliceAdditionalSpecFns;

use crate::response::ContentType;
use crate::text::ascii_bytes;

verus! {

/// A blank that surrounds list entries: space or horizontal tab.
pub open spec fn is_ws(b: u8) -> bool {
    b == 32 || b == 9
}

/// ASCII lowercasing of one byte.
pub open spec fn ascii_lower(b: u8) -> u8 {
    if 65 <= b <= 90 {
        (b + 32) as u8
    } else {
        b
    }
}

/// The position of the first `sep` in `s`, or `s.len()` when there is none.
pub open spec fn spec_find(s: Seq<u8>, sep: u8) -> int
    decreases s.len(),
{
    if s.len() == 0 {
        0
    } else if s[0] == sep {
        0
    } else {
        1 + spec_find(s.drop_first(), sep)
    }
}

proof fn lemma_find_unique(t: Seq<u8>, sep: u8, k: int)
    requires
        0 <= k <= t.len(),
        forall|j: int| 0 <= j < k ==> t[j] != sep,
        k == t.len() || t[k] == sep,
    ensures
        spec_find(t, sep) == k,
    decreases k,
{
    if t.len() == 0 {
    } else if k == 0 {
    } else {
        assert(t[0] != sep);
        lemma_find_unique(t.drop_first(), sep, k - 1);
    }
}

/// The entries of `s` between occurrences of `sep`, in order.
pub open spec fn spec_tokens(s: Seq<u8>, sep: u8) -> Seq<Seq<u8>>
    decreases s.len(),
{
    let i = spec_find(s, sep);
    if 0 <= i < s.len() {
        seq![s.take(i)] + spec_tokens(s.skip(i + 1), sep)
    } else {
        seq![s]
    }
}

/// `s` without leading blanks.
pub open spec fn spec_trim_front(s: Seq<u8>) -> Seq<u8>
    decreases s.len(),
{
    if s.len() > 0 && is_ws(s[0]) {
        spec_trim_front(s.drop_first())
    } else {
        s
    }
}

/// `s` without trailing blanks.
pub open spec fn spec_trim_back(s: Seq<u8>) -> Seq<u8>
    decreases s.len(),
{
    if s.len() > 0 && is_ws(s.last()) {
        spec_trim_back(s.drop_last())
    } else {
        s
    }
}

/// One list entry in canonical form: trimmed, then lowercased.
pub open spec fn spec_normalize(t: Seq<u8>) -> Seq<u8> {
    spec_trim_back(spec_trim_front(t)).map_values(|b: u8| ascii_lower(b))
}

/// A canonical entry shaped like a media type: a nonempty type and subtype
/// around a slash.
pub open spec fn spec_valid_mime(n: Seq<u8>) -> bool {
    &&& n.len() >= 3
    &&& n[0] != 47
    &&& n[n.len() - 1] != 47
    &&& exists|i: int| 0 < i < n.len() - 1 && n[i] == 47
}

/// The canonical entries of an Accept header's bytes.
pub open spec fn spec_accept_mimes(s: Seq<u8>) -> Seq<Seq<u8>> {
    spec_tokens(s, 44).map_values(|t: Seq<u8>| spec_normalize(t))
}

/// The media type that selects the compact-binary encoding.
pub open spec fn spec_octet_stream() -> Seq<u8> {
    ascii_bytes("application/octet-stream"@)
}

proof fn lemma_trim_front_skip(t: Seq<u8>, k: int)
    requires
        0 <= k <= t.len(),
        forall|j: int| 0 <= j < k ==> is_ws(t[j]),
        k == t.len() || !is_ws(t[k]),
    ensures
        spec_trim_front(t) == t.skip(k),
    decreases k,
{
    if k == 0 {
        assert(t.skip(0) =~= t);
    } else {
        assert(is_ws(t[0]));
        lemma_trim_front_skip(t.drop_first(), k - 1);
        assert(t.drop_first().skip(k - 1) =~= t.skip(k));
    }
}

proof fn lemma_trim_back_take(t: Seq<u8>, m: int)
    requires
        0 <= m <= t.len(),
        forall|j: int| m <= j < t.len() ==> is_ws(t[j]),
        m == 0 || !is_ws(t[m - 1]),
    ensures
        spec_trim_back(t) == t.take(m),
    decreases t.len() - m,
{
    if m == t.len() {
        if t.len() > 0 && is_ws(t.last()) {
            assert(false);
        }
        assert(t.take(m) =~= t);
    } else {
        assert(is_ws(t.last()));
        lemma_trim_back_take(t.drop_last(), m);
        assert(t.drop_last().take(m) =~= t.take(m));
    }
}

/// The canonical form of `s[from..to]`: trimmed of blanks, lowercased.
fn normalize_range(s: &[u8], from: usize, to: usize) -> (r: Vec<u8>)
    requires
        from <= to <= s@.len(),
    ensures
        r@ == spec_normalize(s@.subrange(from as int, to as int)),
{
    let ghost t = s@.subrange(from as int, to as int);
    let mut a = from;
    while a < to && (s[a] == 32 || s[a] == 9)
        invariant
            from <= a <= to <= s@.len(),
            forall|j: int| 0 <= j < a - from ==> is_ws(t[j]),
            t == s@.subrange(from as int, to as int),
        decreases to - a,
    {
        a = a + 1;
    }
    let mut b = to;
    while b > a && (s[b - 1] == 32 || s[b - 1] == 9)
        invariant
            from <= a <= b <= to <= s@.len(),
            forall|j: int| 0 <= j < a - from ==> is_ws(t[j]),
            a == to || !is_ws(t[a - from]),
            forall|j: int| b - from <= j < t.len() ==> is_ws(t[j]),
            t == s@.subrange(from as int, to as int),
        decreases b - a,
    {
        b = b - 1;
    }
    proof {
        lemma_trim_front_skip(t, a - from);
        lemma_trim_back_take(t.skip(a - from), b - a);
        assert(t.skip(a - from).take(b - a) =~= s@.subrange(a as int, b as int));
    }
    let ghost core = s@.subrange(a as int, b as int);
    let mut r: Vec<u8> = Vec::new();
    let mut i = a;
    while i < b
        invariant
            a <= i <= b <= s@.len(),
            core == s@.subrange(a as int, b as int),
            r@.len() == i - a,
            forall|j: int| 0 <= j < i - a ==> r@[j] == ascii_lower(core[j]),
        decreases b - i,
    {
        let c = s[i];
        if 65 <= c && c <= 90 {
            r.push(c + 32);
        } else {
            r.push(c);
        }
        i = i + 1;
    }
    proof {
        assert(r@ =~= core.map_values(|x: u8| ascii_lower(x)));
        assert(spec_trim_back(spec_trim_front(t)) == core);
    }
    r
}

/// Whether `t` is shaped like a media type.
fn is_valid_mime(t: &Vec<u8>) -> (r: bool)
    ensures
        r == spec_valid_mime(t@),
{
    let n = t.len();
    if n < 3 {
        return false;
    }
    if t[0] == 47 || t[n - 1] == 47 {
        return false;
    }
    let mut i: usize = 1;
    while i < n - 1
        invariant
            1 <= i <= n - 1,
            n == t@.len(),
            3 <= n,
            t@[0] != 47,
            t@[n - 1] != 47,
            forall|j: int| 0 < j < i ==> t@[j] != 47,
        decreases n - i,
    {
        if t[i] == 47 {
            proof {
                let gi = i as int;
                assert(0 < gi && gi < t@.len() - 1 && t@[gi] == 47);
            }
            return true;
        }
        i = i + 1;
    }
    false
}

/// The media types named in an Accept header, in canonical form.
pub struct AcceptHeader {
    mimes: Vec<Vec<u8>>,
}

impl View for AcceptHeader {
    type V = Seq<Seq<u8>>;

    closed spec fn view(&self) -> Seq<Seq<u8>> {
        self.mimes@.map_values(|v: Vec<u8>| v@)
    }
}

impl AcceptHeader {
    /// Parse an Accept header. An all-ASCII header whose comma-separated
    /// entries are each shaped like a media type parses to those entries in
    /// canonical form; anything else is refused.
    pub fn from_str(s: &str) -> (r: Option<AcceptHeader>)
        ensures
            match r {
                Some(h) => s.is_ascii() && h@ == spec_accept_mimes(s.spec_bytes()) && (forall|
                    i: int,
                |
                    0 <= i < h@.len() ==> spec_valid_mime(#[trigger] h@[i])),
                None => !s.is_ascii() || exists|i: int|
                    0 <= i < spec_accept_mimes(s.spec_bytes()).len() && !spec_valid_mime(
                        #[trigger] spec_accept_mimes(s.spec_bytes())[i],
                    ),
            },
    {
        if !s.is_ascii() {
            return None;
        }
        let bytes = s.as_bytes();
        let n = bytes.len();
        let ghost full = bytes@;
        let ghost toks = spec_tokens(full, 44);
        let mut mimes: Vec<Vec<u8>> = Vec::new();
        let mut start: usize = 0;
        proof {
            assert(full.skip(0) =~= full);
        }
        loop
            invariant
                n == full.len(),
                full == bytes@,
                full == s.spec_bytes(),
                s.is_ascii(),
                0 <= start <= n,
                toks == spec_tokens(full, 44),
                mimes@.len() <= toks.len(),
                toks =~= toks.take(mimes@.len() as int) + spec_tokens(full.skip(start as int), 44),
                forall|j: int|
                    0 <= j < mimes@.len() ==> (#[trigger] mimes@[j])@ == spec_normalize(toks[j])
                        && spec_valid_mime(mimes@[j]@),
            decreases n - start,
        {
            let mut j = start;
            while j < n && bytes[j] != 44
                invariant
                    start <= j <= n,
                    n == full.len(),
                    full == bytes@,
                    forall|p: int| start <= p < j ==> full[p] != 44,
                decreases n - j,
            {
                j = j + 1;
            }
            proof {
                let rest = full.skip(start as int);
                assert forall|p: int| 0 <= p < j - start implies rest[p] != 44 by {
                    assert(rest[p] == full[start + p]);
                }
                if j < n {
                    assert(rest[j - start] == full[j as int]);
                }
                lemma_find_unique(rest, 44, j - start);
            }
            let norm = normalize_range(bytes, start, j);
            proof {
                let rest = full.skip(start as int);
                assert(rest.take(j - start) =~= full.subrange(start as int, j as int));
            }
            if !is_valid_mime(&norm) {
                proof {
                    let rest = full.skip(start as int);
                    let idx = mimes@.len() as int;
                    if j < n {
                        assert(spec_tokens(rest, 44) == seq![rest.take(j - start)] + spec_tokens(
                            rest.skip(j - start + 1),
                            44,
                        ));
                    }
                    assert(toks[idx] == full.subrange(start as int, j as int));
                    assert(!spec_valid_mime(spec_accept_mimes(full)[idx]));
                }
                return None;
            }
            let ghost gn = norm@;
            let ghost prior = mimes@.len() as int;
            mimes.push(norm);
            if j == n {
                proof {
                    let rest = full.skip(start as int);
                    assert(spec_find(rest, 44) == rest.len());
                    assert(spec_tokens(rest, 44) == seq![rest]);
                    assert(rest =~= full.subrange(start as int, j as int));
                    assert(toks =~= toks.take(prior) + seq![rest]);
                    assert(toks.len() == prior + 1);
                    assert(toks[prior] == rest);
                    assert(gn == spec_normalize(toks[prior]));
                }
                let h = AcceptHeader { mimes };
                proof {
                    assert(h@.len() == prior + 1);
                    assert forall|q: int| 0 <= q < h@.len() implies (#[trigger] h@[q])
                        == spec_accept_mimes(full)[q] && spec_valid_mime(h@[q]) by {
                        if q < prior {
                            assert(toks.take(prior)[q] == toks[q]);
                            assert(h@[q] == spec_normalize(toks[q]));
                        } else {
                            assert(h@[q] == gn);
                        }
                        assert(spec_accept_mimes(full)[q] == spec_normalize(toks[q]));
                    }
                    assert(h@ =~= spec_accept_mimes(full));
                }
                return Some(h);
            }
            proof {
                let rest = full.skip(start as int);
                assert(spec_tokens(rest, 44) == seq![rest.take(j - start)] + spec_tokens(
                    rest.skip(j - start + 1),
                    44,
                ));
                assert(rest.take(j - start) =~= full.subrange(start as int, j as int));
                assert(rest.skip(j - start + 1) =~= full.skip(j + 1));
                assert(toks =~= toks.take(mimes@.len() as int) + spec_tokens(full.skip(j + 1), 44));
            }
            start = j + 1;
        }
    }

    /// Whether the header names the binary media type.
    pub fn accepts_bincode(&self) -> (r: bool)
        ensures
            r == exists|i: int| 0 <= i < self@.len() && #[trigger] self@[i] == spec_octet_stream(),
    {
        let mut target: Vec<u8> = Vec::new();
        proof {
            reveal_strlit("application/octet-stream");
        }
        crate::text::append_ascii_str(&mut target, "application/octet-stream");
        proof {
            assert(target@ =~= spec_octet_stream());
        }
        let n = self.mimes.len();
        let mut i: usize = 0;
        while i < n
            invariant
                n == self.mimes@.len(),
                0 <= i <= n,
                target@ == spec_octet_stream(),
                forall|j: int| 0 <= j < i ==> (#[trigger] self@[j]) != spec_octet_stream(),
            decreases n - i,
        {
            let m = &self.mimes[i];
            let eq = *m == target;
            proof {
                if eq {
                    assert(m@ =~= target@);
                    assert(self@[i as int] == m@);
                } else {
                    if self@[i as int] == spec_octet_stream() {
                        assert(m@ =~= target@);
                    }
                }
            }
            if eq {
                return true;
            }
            i = i + 1;
        }
        false
    }
}

/// The encoding chosen for a request: the binary media type present in the
/// Accept header means the compact-binary encoding; otherwise, the
/// structured-text one.
pub fn negotiate(accept: &Option<AcceptHeader>) -> (r: ContentType)
    ensures
        match accept {
            Some(h) => r == (if exists|i: int|
                0 <= i < h@.len() && #[trigger] h@[i] == spec_octet_stream() {
                ContentType::Bincode
            } else {
                ContentType::Json
            }),
            None => r == ContentType::Json,
        },
{
    match accept {
        Some(h) => {
            if h.accepts_bincode() {
                ContentType::Bincode
            } else {
                ContentType::Json
            }
        },
        None => ContentType::Json,
    }
}

/// The decoder chosen for a request body from its content-type header, in
/// canonical form: the binary media type means the compact-binary decoder;
/// anything else, the structured-text one.
pub fn body_content_type(content_type: &Option<Vec<u8>>) -> (r: ContentType)
    ensures
        match content_type {
            Some(c) => r == (if spec_normalize(c@) == spec_octet_stream() {
                ContentType::Bincode
            } else {
                ContentType::Json
            }),
            None => r == ContentType::Json,
        },
{
    match content_type {
        Some(c) => {
            let norm = normalize_range(c.as_slice(), 0, c.len());
            proof {
                assert(c@.subrange(0, c@.len() as int) =~= c@);
            }
            let mut target: Vec<u8> = Vec::new();
            proof {
                reveal_strlit("application/octet-stream");
            }
            crate::text::append_ascii_str(&mut target, "application/octet-stream");
            proof {
                assert(target@ =~= spec_octet_stream());
            }
            let eq = norm == target;
            proof {
                if eq {
                    assert(norm@ =~= target@);
                } else {
                    if spec_normalize(c@) == spec_octet_stream() {
                        assert(norm@ =~= target@);
                    }
                }
            }
            if eq {
                ContentType::Bincode
            } else {
                ContentType::Json
            }
        },
        None => ContentType::Json,
    }
}

} // verus!
