//! Per-resolver HTTP client configuration: an ordered header list that
//! the caller attaches to every request a resolver emits.
use vstd::prelude::*;
use vstd::string::*;

verus! {

/// The user agent attached to every request by default.
pub const UA: &'static str = "Mozilla/5.0 (Windows NT 10.0; Win64; x64) AppleWebKit/537.36 (KHTML, like Gecko) Chrome/75.0.3770.142 Safari/537.36";

/// Header configuration shared by all of one resolver's requests.
/// The library never performs a request itself: the caller reads
/// these headers when it executes an emitted [`crate::Request`].
#[derive(Debug)]
pub struct Client {
    headers: Vec<(String, String)>,
}

impl View for Client {
    type V = Seq<(Seq<char>, Seq<char>)>;

    closed spec fn view(&self) -> Seq<(Seq<char>, Seq<char>)> {
        self.headers@.map_values(|p: (String, String)| (p.0@, p.1@))
    }
}

impl Client {
    pub fn new() -> (r: Self)
        ensures
            r@ =~= seq![("user-agent"@, UA@)],
    {
        let mut headers: Vec<(String, String)> = Vec::new();
        headers.push((String::from_str("user-agent"), String::from_str(UA)));
        let r = Client { headers };
        proof {
            assert(r@ =~= seq![("user-agent"@, UA@)]);
        }
        r
    }

    pub fn with_header(headers: Vec<(String, String)>) -> (r: Self)
        ensures
            r@ == headers@.map_values(|p: (String, String)| (p.0@, p.1@)),
    {
        Client { headers }
    }

    /// The default header set of one platform: the shared user agent
    /// plus that platform's referer.
    pub fn with_referer(referer: &str) -> (r: Self)
        ensures
            r@ =~= seq![("user-agent"@, UA@), ("referer"@, referer@)],
    {
        let mut headers: Vec<(String, String)> = Vec::new();
        headers.push((String::from_str("user-agent"), String::from_str(UA)));
        headers.push((String::from_str("referer"), String::from_str(referer)));
        let r = Client { headers };
        proof {
            assert(r@ =~= seq![("user-agent"@, UA@), ("referer"@, referer@)]);
        }
        r
    }

    /// Append one cookie header; later requests carry it.
    pub fn push_cookie(&mut self, cookie: &str)
        ensures
            final(self)@ =~= old(self)@.push(("cookie"@, cookie@)),
    {
        self.headers.push((String::from_str("cookie"), String::from_str(cookie)));
        proof {
            assert(self@ =~= old(self)@.push(("cookie"@, cookie@)));
        }
    }

    pub fn headers(&self) -> (r: &Vec<(String, String)>)
        ensures
            r@.map_values(|p: (String, String)| (p.0@, p.1@)) == self@,
    {
        &self.headers
    }
}

/// The view of a header or cookie pair list, element-wise.
pub open spec fn pairs_view(s: Seq<(String, String)>) -> Seq<(Seq<char>, Seq<char>)> {
    s.map_values(|p: (String, String)| (p.0@, p.1@))
}

/// One cookie header value for a list of cookie pairs: each pair as
/// `name=value` followed by a semicolon, in order.
pub open spec fn cookie_join_spec(pairs: Seq<(Seq<char>, Seq<char>)>) -> Seq<char>
    decreases pairs.len(),
{
    if pairs.len() == 0 {
        Seq::empty()
    } else {
        cookie_join_spec(pairs.drop_last()) + pairs.last().0 + "="@ + pairs.last().1 + ";"@
    }
}

/// Join cookie pairs into the single cookie header value that
/// `push_cookie` takes.
pub fn join_cookies(pairs: &Vec<(String, String)>) -> (r: String)
    ensures
        r@ == cookie_join_spec(pairs_view(pairs@)),
{
    let n = pairs.len();
    let mut joined = String::new();
    let ghost mut done: Seq<(Seq<char>, Seq<char>)> = Seq::empty();
    let mut i: usize = 0;
    while i < n
        invariant
            n == pairs@.len(),
            0 <= i <= n,
            done.len() == i,
            forall|j: int| 0 <= j < i ==> done[j] == (pairs@[j].0@, pairs@[j].1@),
            joined@ == cookie_join_spec(done),
        decreases n - i,
    {
        let pair = &pairs[i];
        joined.append(pair.0.as_str());
        joined.append("=");
        joined.append(pair.1.as_str());
        joined.append(";");
        proof {
            let prev = done;
            done = done.push((pairs@[i as int].0@, pairs@[i as int].1@));
            assert(done.drop_last() =~= prev);
            assert(joined@ =~= cookie_join_spec(done));
        }
        i = i + 1;
    }
    proof {
        assert(done =~= pairs_view(pairs@));
    }
    joined
}

impl Clone for Client {
    fn clone(&self) -> (r: Self)
        ensures
            r@ == self@,
    {
        let n = self.headers.len();
        let mut headers: Vec<(String, String)> = Vec::new();
        let mut i: usize = 0;
        while i < n
            invariant
                n == self.headers@.len(),
                0 <= i <= n,
                headers@.len() == i,
                forall|j: int| 0 <= j < i ==> headers@[j].0@ == self.headers@[j].0@
                    && headers@[j].1@ == self.headers@[j].1@,
            decreases n - i,
        {
            let k = self.headers[i].0.clone();
            let v = self.headers[i].1.clone();
            headers.push((k, v));
            i = i + 1;
        }
        let r = Client { headers };
        proof {
            assert(r@ =~= self@);
        }
        r
    }
}

} // verus!
