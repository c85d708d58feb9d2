use vstd::prelude::*;
use crate::text::{eq_ignore_ascii_case, same_ignoring_ascii_case, str_eq};

verus! {

/// How long, in seconds, a client may cache a preflight answer.
pub const PREFLIGHT_MAX_AGE: u32 = 3600;

pub open spec fn texts(v: Seq<String>) -> Seq<Seq<char>> {
    v.map_values(|s: String| s@)
}

/// The origins that may complete a preflight: two local development origins
/// and the production origin.
pub open spec fn standard_origins(production: Seq<char>) -> Seq<Seq<char>> {
    seq!["http://localhost:3000"@, "http://127.0.0.1:3000"@, production]
}

pub open spec fn standard_methods() -> Seq<Seq<char>> {
    seq!["GET"@, "POST"@, "PUT"@, "DELETE"@]
}

pub open spec fn standard_headers() -> Seq<Seq<char>> {
    seq!["Content-Type"@, "Authorization"@]
}

/// The settings of the server, made once at startup.
pub struct ServerConfig {
    pub host: String,
    pub port: u16,
    pub origins: Vec<String>,
    pub methods: Vec<String>,
    pub headers: Vec<String>,
    pub max_age: u32,
}

impl ServerConfig {
    pub open spec fn allows_origin_spec(&self, origin: Seq<char>) -> bool {
        texts(self.origins@).contains(origin)
    }

    pub open spec fn allows_method_spec(&self, method: Seq<char>) -> bool {
        texts(self.methods@).contains(method)
    }

    pub open spec fn allows_header_spec(&self, header: Seq<char>) -> bool {
        exists|i: int| 0 <= i < self.headers@.len() && same_ignoring_ascii_case(
            #[trigger] self.headers@[i]@,
            header,
        )
    }

    /// Whether a preflight from `origin` asking for `method` and `headers`
    /// is admitted.
    pub open spec fn admits_preflight(&self, origin: Seq<char>, method: Seq<char>, headers: Seq<Seq<char>>) -> bool {
        &&& self.allows_origin_spec(origin)
        &&& self.allows_method_spec(method)
        &&& forall|j: int| 0 <= j < headers.len() ==> self.allows_header_spec(#[trigger] headers[j])
    }

    /// The standard settings for `host` and `port`, with `production` as the
    /// one deployed origin.
    pub fn standard(host: String, port: u16, production: String) -> (r: ServerConfig)
        ensures
            r.host@ == host@,
            r.port == port,
            texts(r.origins@) == standard_origins(production@),
            texts(r.methods@) == standard_methods(),
            texts(r.headers@) == standard_headers(),
            r.max_age == PREFLIGHT_MAX_AGE,
    {
        let origins = vec![
            String::from_str("http://localhost:3000"),
            String::from_str("http://127.0.0.1:3000"),
            production,
        ];
        let methods = vec![
            String::from_str("GET"),
            String::from_str("POST"),
            String::from_str("PUT"),
            String::from_str("DELETE"),
        ];
        let headers = vec![String::from_str("Content-Type"), String::from_str("Authorization")];
        let r = ServerConfig { host, port, origins, methods, headers, max_age: PREFLIGHT_MAX_AGE };
        assert(texts(r.origins@) =~= standard_origins(production@));
        assert(texts(r.methods@) =~= standard_methods());
        assert(texts(r.headers@) =~= standard_headers());
        r
    }

    /// Whether `origin` is on the allow-list.
    pub fn allows_origin(&self, origin: &str) -> (r: bool)
        ensures
            r == self.allows_origin_spec(origin@),
    {
        let mut i: usize = 0;
        while i < self.origins.len()
            invariant
                i <= self.origins@.len(),
                forall|j: int| 0 <= j < i ==> self.origins@[j]@ != origin@,
            decreases self.origins@.len() - i,
        {
            if str_eq(self.origins[i].as_str(), origin) {
                assert(texts(self.origins@)[i as int] == origin@);
                return true;
            }
            i = i + 1;
        }
        assert(!texts(self.origins@).contains(origin@)) by {
            if texts(self.origins@).contains(origin@) {
                let k = choose|k: int| 0 <= k < texts(self.origins@).len() && texts(self.origins@)[k] == origin@;
                assert(self.origins@[k]@ == origin@);
            }
        }
        false
    }

    /// Whether `method` is one of the allowed methods.
    pub fn allows_method(&self, method: &str) -> (r: bool)
        ensures
            r == self.allows_method_spec(method@),
    {
        let mut i: usize = 0;
        while i < self.methods.len()
            invariant
                i <= self.methods@.len(),
                forall|j: int| 0 <= j < i ==> self.methods@[j]@ != method@,
            decreases self.methods@.len() - i,
        {
            if str_eq(self.methods[i].as_str(), method) {
                assert(texts(self.methods@)[i as int] == method@);
                return true;
            }
            i = i + 1;
        }
        assert(!texts(self.methods@).contains(method@)) by {
            if texts(self.methods@).contains(method@) {
                let k = choose|k: int| 0 <= k < texts(self.methods@).len() && texts(self.methods@)[k] == method@;
                assert(self.methods@[k]@ == method@);
            }
        }
        false
    }

    /// Whether `header` is one of the allowed request headers; header names
    /// match regardless of ASCII case.
    pub fn allows_header(&self, header: &str) -> (r: bool)
        ensures
            r == self.allows_header_spec(header@),
    {
        let mut i: usize = 0;
        while i < self.headers.len()
            invariant
                i <= self.headers@.len(),
                forall|j: int| 0 <= j < i ==> !same_ignoring_ascii_case(#[trigger] self.headers@[j]@, header@),
            decreases self.headers@.len() - i,
        {
            if eq_ignore_ascii_case(self.headers[i].as_str(), header) {
                return true;
            }
            i = i + 1;
        }
        false
    }

    /// Whether a preflight from `origin` asking for `method` and the request
    /// headers `headers` is admitted.
    pub fn preflight_allowed(&self, origin: &str, method: &str, headers: &Vec<String>) -> (r: bool)
        ensures
            r == self.admits_preflight(origin@, method@, texts(headers@)),
    {
        if !self.allows_origin(origin) || !self.allows_method(method) {
            return false;
        }
        let mut i: usize = 0;
        while i < headers.len()
            invariant
                i <= headers@.len(),
                forall|j: int| 0 <= j < i ==> self.allows_header_spec(#[trigger] texts(headers@)[j]),
            decreases headers@.len() - i,
        {
            if !self.allows_header(headers[i].as_str()) {
                assert(!self.allows_header_spec(texts(headers@)[i as int]));
                return false;
            }
            i = i + 1;
        }
        true
    }
}

/// With the standard settings, an origin off the allow-list never completes a
/// preflight, whatever it asks for.
pub proof fn lemma_unlisted_origin_rejected(
    c: ServerConfig,
    production: Seq<char>,
    origin: Seq<char>,
    method: Seq<char>,
    headers: Seq<Seq<char>>,
)
    requires
        texts(c.origins@) == standard_origins(production),
        !standard_origins(production).contains(origin),
    ensures
        !c.admits_preflight(origin, method, headers),
{
}

} // verus!
