//! Decomposition of an input URL into the plain parts the resolvers
//! read: host, path segments, query pairs, fragment, and the
//! normalized serialization. The parse itself is the `url` crate's.
use vstd::prelude::*;
use vstd::string::*;

verus! {

/// The parts of one parsed absolute URL, as plain values.
#[derive(Debug)]
pub struct UrlParts {
    /// The domain name, or empty when the host is absent or an IP address.
    pub host: String,
    /// Path segments, percent-encoded as the parser serializes them.
    pub segments: Vec<String>,
    /// Query pairs, percent-decoded, in source order.
    pub query: Vec<(String, String)>,
    /// The fragment after `#`, if any, not percent-decoded.
    pub fragment: Option<String>,
    /// The whole URL as the parser serializes it.
    pub normalized: String,
}

pub struct UrlPartsV {
    pub host: Seq<char>,
    pub segments: Seq<Seq<char>>,
    pub query: Seq<(Seq<char>, Seq<char>)>,
    pub fragment: Option<Seq<char>>,
    pub normalized: Seq<char>,
}

impl View for UrlParts {
    type V = UrlPartsV;

    open spec fn view(&self) -> UrlPartsV {
        UrlPartsV {
            host: self.host@,
            segments: self.segments@.map_values(|s: String| s@),
            query: self.query@.map_values(|p: (String, String)| (p.0@, p.1@)),
            fragment: match self.fragment {
                Some(f) => Some(f@),
                None => None,
            },
            normalized: self.normalized@,
        }
    }
}

/// The parts that `url::Url::parse` yields for a string, or `None`
/// where it rejects the string. Whatever `parse` accepts and how it
/// normalizes is the `url` crate's: this function only names it.
pub uninterp spec fn url_parts_of(s: Seq<char>) -> Option<UrlPartsV>;

/// Relies on `url::Url::parse` and the accessors `domain`,
/// `path_segments`, `query_pairs`, `fragment` and `as_str` of
/// `url::Url`: the outcome depends on the input string alone.
#[verifier::external_body]
pub fn parse_url_parts(s: &str) -> (r: Option<UrlParts>)
    ensures
        match url_parts_of(s@) {
            Some(v) => r matches Some(p) && p@ == v,
            None => r is None,
        },
{
    let u = match url::Url::parse(s) {
        Ok(u) => u,
        Err(_) => return None,
    };
    let segments = u.path_segments().map_or(Vec::new(), |it| it.map(|p| p.to_string()).collect());
    Some(UrlParts {
        host: u.domain().unwrap_or("").to_string(),
        query: u.query_pairs().map(|(k, v)| (k.to_string(), v.to_string())).collect(),
        fragment: u.fragment().map(|f| f.to_string()),
        normalized: u.as_str().to_string(),
        segments,
    })
}

/// The last non-empty path segment, if any.
pub open spec fn last_nonempty_segment(segs: Seq<Seq<char>>) -> Option<Seq<char>>
    decreases segs.len(),
{
    if segs.len() == 0 {
        None
    } else if segs.last().len() > 0 {
        Some(segs.last())
    } else {
        last_nonempty_segment(segs.drop_last())
    }
}

/// The value of the first query pair named `key`, if any.
pub open spec fn query_value(q: Seq<(Seq<char>, Seq<char>)>, key: Seq<char>) -> Option<Seq<char>>
    decreases q.len(),
{
    if q.len() == 0 {
        None
    } else if q[0].0 == key {
        Some(q[0].1)
    } else {
        query_value(q.drop_first(), key)
    }
}

impl UrlParts {
    pub fn last_nonempty_segment(&self) -> (r: Option<&String>)
        ensures
            match last_nonempty_segment(self@.segments) {
                Some(v) => r matches Some(s) && s@ == v,
                None => r is None,
            },
    {
        let mut k = self.segments.len();
        proof {
            assert(self@.segments.take(self.segments@.len() as int) =~= self@.segments);
        }
        while k > 0
            invariant
                0 <= k <= self.segments@.len(),
                last_nonempty_segment(self@.segments) == last_nonempty_segment(
                    self@.segments.take(k as int),
                ),
            decreases k,
        {
            let seg = &self.segments[k - 1];
            proof {
                assert(self@.segments.take(k as int).last() == self@.segments[k - 1]);
            }
            if seg.as_str().unicode_len() > 0 {
                return Some(seg);
            }
            proof {
                assert(self@.segments.take(k as int).drop_last() =~= self@.segments.take(
                    k - 1,
                ));
            }
            k = k - 1;
        }
        proof {
            assert(self@.segments.take(0) =~= Seq::<Seq<char>>::empty());
        }
        None
    }

    pub fn query_value(&self, key: &str) -> (r: Option<&String>)
        ensures
            match query_value(self@.query, key@) {
                Some(v) => r matches Some(s) && s@ == v,
                None => r is None,
            },
    {
        let n = self.query.len();
        let mut i: usize = 0;
        proof {
            assert(self@.query.skip(0) =~= self@.query);
        }
        while i < n
            invariant
                n == self.query@.len(),
                0 <= i <= n,
                query_value(self@.query, key@) == query_value(
                    self@.query.skip(i as int),
                    key@,
                ),
            decreases n - i,
        {
            let pair = &self.query[i];
            proof {
                assert(self@.query.skip(i as int)[0] == self@.query[i as int]);
            }
            if crate::text::str_eq(pair.0.as_str(), key) {
                return Some(&pair.1);
            }
            proof {
                assert(self@.query.skip(i as int).drop_first() =~= self@.query.skip(
                    i as int + 1,
                ));
            }
            i = i + 1;
        }
        None
    }
}

} // verus!
