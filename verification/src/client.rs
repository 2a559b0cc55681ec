//! The client's configuration and what it derives from it: the address of an
//! endpoint, the credential's header, the masked credential for diagnostics,
//! and the retry policy of its requests.

use crate::retry::{RetryPolicy, RetryState};
use crate::text::{
    find, first_occurrence, starts_with, trim_end, trim_start, without_leading, without_trailing,
};
use std::time::Duration;
use vstd::prelude::*;
use vstd::string::{StrSliceExecFns, StringExecFns};

verus! {

/// The duration that `Duration::from_secs` makes of a number of seconds.
pub uninterp spec fn duration_of_secs(secs: u64) -> Duration;

/// `Duration::from_secs` makes a duration of a number of whole seconds; the
/// same number gives the same duration.
pub assume_specification[ Duration::from_secs ](secs: u64) -> (d: Duration)
    ensures
        d == duration_of_secs(secs),
;

/// A `Duration` is `Copy`: its clone is the duration itself.
pub assume_specification[ <Duration as Clone>::clone ](d: &Duration) -> (r: Duration)
    ensures
        r == *d,
;

/// The wait before the first retry of a request, in milliseconds.
pub const BACKOFF_BASE_MS: u64 = 100;

/// The retries of a request where none are configured.
pub const DEFAULT_MAX_RETRIES: u32 = 2;

/// The timeout of a request where none is configured, in seconds.
pub const DEFAULT_TIMEOUT_SECS: u64 = 30;

/// The address of the service where none is configured.
pub open spec fn default_base_url() -> Seq<char> {
    "https://www.renamed.to/api/v1"@
}

/// What a client is configured with.
pub struct ClientConfig {
    /// The credential.
    pub api_key: Seq<char>,
    /// The address that relative paths are resolved against.
    pub base_url: Seq<char>,
    /// The timeout of one request.
    pub timeout: Duration,
    /// How often a request is sent again.
    pub max_retries: u32,
    /// Whether diagnostics are written.
    pub debug: bool,
}

impl ClientConfig {
    /// The base address does not end in a slash.
    pub open spec fn wf(self) -> bool {
        self.base_url.len() == 0 || self.base_url.last() != '/'
    }
}

/// Whether a path is an address of its own rather than a path below the
/// base address.
pub open spec fn is_absolute(path: Seq<char>) -> bool {
    "http://"@.is_prefix_of(path) || "https://"@.is_prefix_of(path)
}

/// The address of `path`: itself where it is absolute, else the base
/// address, one slash, and the path without the slashes it begins with.
pub open spec fn resolved(base: Seq<char>, path: Seq<char>) -> Seq<char> {
    if is_absolute(path) {
        path
    } else {
        base + "/"@ + without_leading(path, '/')
    }
}

/// A credential as diagnostics show it: a fixed marker for one of at most 7
/// characters, else its first 3 and its last 4 characters with a fixed
/// separator between them.
pub open spec fn masked(key: Seq<char>) -> Seq<char> {
    if key.len() <= 7 {
        "***"@
    } else {
        key.take(3) + "..."@ + key.skip(key.len() - 4)
    }
}

/// The path of an address: what begins at the first slash behind the
/// scheme's `://`. An address without scheme, or without a slash behind it,
/// is its own path.
pub open spec fn path_of(url: Seq<char>) -> Seq<char> {
    match first_occurrence(url, "://"@, 0) {
        Some(i) => {
            let rest = url.skip(i + 3);
            match first_occurrence(rest, "/"@, 0) {
                Some(j) => rest.skip(j),
                None => url,
            }
        },
        None => url,
    }
}

/// The header value that carries a credential.
pub open spec fn bearer(key: Seq<char>) -> Seq<char> {
    "Bearer "@ + key
}

/// The unit in which a size is shown.
#[derive(Debug, Clone, Copy, PartialEq, Eq, Structural)]
pub enum SizeUnit {
    /// Bytes, below 1024.
    Bytes,
    /// Units of 1024 bytes.
    Kilobytes,
    /// Units of 1024 kilobytes.
    Megabytes,
    /// Units of 1024 megabytes.
    Gigabytes,
}

impl SizeUnit {
    /// The largest unit that `bytes` fills at least once.
    pub open spec fn of(bytes: u64) -> SizeUnit {
        if bytes >= 1_073_741_824 {
            SizeUnit::Gigabytes
        } else if bytes >= 1_048_576 {
            SizeUnit::Megabytes
        } else if bytes >= 1024 {
            SizeUnit::Kilobytes
        } else {
            SizeUnit::Bytes
        }
    }

    /// The number of bytes in one unit.
    pub open spec fn size(self) -> u64 {
        match self {
            SizeUnit::Bytes => 1,
            SizeUnit::Kilobytes => 1024,
            SizeUnit::Megabytes => 1_048_576,
            SizeUnit::Gigabytes => 1_073_741_824,
        }
    }

    /// The unit in which a size of `bytes` is shown.
    pub fn for_size(bytes: u64) -> (u: SizeUnit)
        ensures
            u == SizeUnit::of(bytes),
            u.size() <= bytes || bytes == 0,
    {
        if bytes >= 1_073_741_824 {
            SizeUnit::Gigabytes
        } else if bytes >= 1_048_576 {
            SizeUnit::Megabytes
        } else if bytes >= 1024 {
            SizeUnit::Kilobytes
        } else {
            SizeUnit::Bytes
        }
    }

    /// The number of bytes in one unit.
    pub fn bytes(&self) -> (n: u64)
        ensures
            n == self.size(),
    {
        match self {
            SizeUnit::Bytes => 1,
            SizeUnit::Kilobytes => 1024,
            SizeUnit::Megabytes => 1_048_576,
            SizeUnit::Gigabytes => 1_073_741_824,
        }
    }

    /// The unit's abbreviation.
    pub fn label(&self) -> (r: &'static str)
        ensures
            r@ == match *self {
                SizeUnit::Bytes => "B"@,
                SizeUnit::Kilobytes => "KB"@,
                SizeUnit::Megabytes => "MB"@,
                SizeUnit::Gigabytes => "GB"@,
            },
    {
        match self {
            SizeUnit::Bytes => "B",
            SizeUnit::Kilobytes => "KB",
            SizeUnit::Megabytes => "MB",
            SizeUnit::Gigabytes => "GB",
        }
    }
}

/// Builder of a [`RenamedClient`]. It has no `Debug`, which would show the
/// credential.
pub struct RenamedClientBuilder {
    api_key: String,
    base_url: String,
    timeout: Duration,
    max_retries: u32,
    debug: bool,
}

impl View for RenamedClientBuilder {
    type V = ClientConfig;

    closed spec fn view(&self) -> ClientConfig {
        ClientConfig {
            api_key: self.api_key@,
            base_url: self.base_url@,
            timeout: self.timeout,
            max_retries: self.max_retries,
            debug: self.debug,
        }
    }
}

impl Clone for RenamedClientBuilder {
    fn clone(&self) -> (r: RenamedClientBuilder)
        ensures
            r@ == self@,
    {
        proof {
            use_type_invariant(self);
        }
        RenamedClientBuilder {
            api_key: self.api_key.clone(),
            base_url: self.base_url.clone(),
            timeout: self.timeout,
            max_retries: self.max_retries,
            debug: self.debug,
        }
    }
}

impl RenamedClientBuilder {
    /// The base address does not end in a slash.
    #[verifier::type_invariant]
    spec fn base_is_trimmed(self) -> bool {
        self.base_url@.len() == 0 || self.base_url@.last() != '/'
    }

    /// A builder with the given credential and the default settings.
    pub fn new(api_key: &str) -> (r: RenamedClientBuilder)
        ensures
            r@ == (ClientConfig {
                api_key: api_key@,
                base_url: default_base_url(),
                timeout: duration_of_secs(DEFAULT_TIMEOUT_SECS),
                max_retries: DEFAULT_MAX_RETRIES,
                debug: false,
            }),
            r@.wf(),
    {
        proof {
            reveal_strlit("https://www.renamed.to/api/v1");
        }
        RenamedClientBuilder {
            api_key: String::from_str(api_key),
            base_url: String::from_str("https://www.renamed.to/api/v1"),
            timeout: Duration::from_secs(DEFAULT_TIMEOUT_SECS),
            max_retries: DEFAULT_MAX_RETRIES,
            debug: false,
        }
    }

    /// The same builder with another base address, taken without the
    /// slashes it ends with.
    pub fn base_url(self, url: &str) -> (r: RenamedClientBuilder)
        ensures
            r@ == (ClientConfig { base_url: without_trailing(url@, '/'), ..self@ }),
            r@.wf(),
    {
        proof {
            lemma_without_trailing(url@, '/');
        }
        RenamedClientBuilder {
            api_key: self.api_key,
            base_url: String::from_str(trim_end(url, '/')),
            timeout: self.timeout,
            max_retries: self.max_retries,
            debug: self.debug,
        }
    }

    /// The same builder with another timeout for each request.
    pub fn timeout(self, timeout: Duration) -> (r: RenamedClientBuilder)
        ensures
            r@ == (ClientConfig { timeout, ..self@ }),
            r@.wf(),
    {
        proof {
            use_type_invariant(&self);
        }
        RenamedClientBuilder {
            api_key: self.api_key,
            base_url: self.base_url,
            timeout,
            max_retries: self.max_retries,
            debug: self.debug,
        }
    }

    /// The same builder with another number of retries.
    pub fn max_retries(self, retries: u32) -> (r: RenamedClientBuilder)
        ensures
            r@ == (ClientConfig { max_retries: retries, ..self@ }),
            r@.wf(),
    {
        proof {
            use_type_invariant(&self);
        }
        RenamedClientBuilder {
            api_key: self.api_key,
            base_url: self.base_url,
            timeout: self.timeout,
            max_retries: retries,
            debug: self.debug,
        }
    }

    /// The same builder with diagnostics switched on or off.
    pub fn with_debug(self, enabled: bool) -> (r: RenamedClientBuilder)
        ensures
            r@ == (ClientConfig { debug: enabled, ..self@ }),
            r@.wf(),
    {
        proof {
            use_type_invariant(&self);
        }
        RenamedClientBuilder {
            api_key: self.api_key,
            base_url: self.base_url,
            timeout: self.timeout,
            max_retries: self.max_retries,
            debug: enabled,
        }
    }

    /// The client that this builder describes.
    pub fn build(self) -> (r: RenamedClient)
        ensures
            r@ == self@,
            r@.wf(),
    {
        proof {
            use_type_invariant(&self);
        }
        RenamedClient {
            api_key: self.api_key,
            base_url: self.base_url,
            timeout: self.timeout,
            max_retries: self.max_retries,
            debug: self.debug,
        }
    }
}

/// A configured client: the credential, the base address, and the policy of
/// its requests. It has no `Debug`, which would show the credential: see
/// [`RenamedClient::mask_api_key`].
pub struct RenamedClient {
    api_key: String,
    base_url: String,
    timeout: Duration,
    max_retries: u32,
    debug: bool,
}

impl View for RenamedClient {
    type V = ClientConfig;

    closed spec fn view(&self) -> ClientConfig {
        ClientConfig {
            api_key: self.api_key@,
            base_url: self.base_url@,
            timeout: self.timeout,
            max_retries: self.max_retries,
            debug: self.debug,
        }
    }
}

impl Clone for RenamedClient {
    fn clone(&self) -> (r: RenamedClient)
        ensures
            r@ == self@,
    {
        proof {
            use_type_invariant(self);
        }
        RenamedClient {
            api_key: self.api_key.clone(),
            base_url: self.base_url.clone(),
            timeout: self.timeout,
            max_retries: self.max_retries,
            debug: self.debug,
        }
    }
}

impl RenamedClient {
    /// The base address does not end in a slash.
    #[verifier::type_invariant]
    spec fn base_is_trimmed(self) -> bool {
        self.base_url@.len() == 0 || self.base_url@.last() != '/'
    }

    /// A client with the given credential and the default settings.
    pub fn new(api_key: &str) -> (r: RenamedClient)
        ensures
            r@ == (ClientConfig {
                api_key: api_key@,
                base_url: default_base_url(),
                timeout: duration_of_secs(DEFAULT_TIMEOUT_SECS),
                max_retries: DEFAULT_MAX_RETRIES,
                debug: false,
            }),
    {
        RenamedClientBuilder::new(api_key).build()
    }

    /// A builder with the given credential and the default settings.
    pub fn builder(api_key: &str) -> (r: RenamedClientBuilder)
        ensures
            r@ == (ClientConfig {
                api_key: api_key@,
                base_url: default_base_url(),
                timeout: duration_of_secs(DEFAULT_TIMEOUT_SECS),
                max_retries: DEFAULT_MAX_RETRIES,
                debug: false,
            }),
            r@.wf(),
    {
        RenamedClientBuilder::new(api_key)
    }

    /// The credential.
    pub fn api_key(&self) -> (r: &str)
        ensures
            r@ == self@.api_key,
    {
        self.api_key.as_str()
    }

    /// The base address. It does not end in a slash.
    pub fn base_url(&self) -> (r: &str)
        ensures
            r@ == self@.base_url,
            self@.wf(),
    {
        proof {
            use_type_invariant(self);
        }
        self.base_url.as_str()
    }

    /// The timeout of one request.
    pub fn timeout(&self) -> (r: Duration)
        ensures
            r == self@.timeout,
    {
        self.timeout
    }

    /// How often a request is sent again.
    pub fn max_retries(&self) -> (r: u32)
        ensures
            r == self@.max_retries,
    {
        self.max_retries
    }

    /// Whether diagnostics are written.
    pub fn is_debug_enabled(&self) -> (r: bool)
        ensures
            r == self@.debug,
    {
        self.debug
    }

    /// The address of an endpoint: `path` itself where it is an address
    /// already, else the base address, one slash, and `path` without the
    /// slashes it begins with.
    pub fn build_url(&self, path: &str) -> (r: String)
        ensures
            r@ == resolved(self@.base_url, path@),
            self@.wf(),
    {
        proof {
            use_type_invariant(self);
        }
        if starts_with(path, "http://") || starts_with(path, "https://") {
            return String::from_str(path);
        }
        let mut url = self.base_url.clone();
        url.append("/");
        url.append(trim_start(path, '/'));
        url
    }

    /// The credential as diagnostics may show it.
    pub fn mask_api_key(&self) -> (r: String)
        ensures
            r@ == masked(self@.api_key),
    {
        let key = self.api_key.as_str();
        let n: usize = key.unicode_len();
        if n <= 7 {
            return String::from_str("***");
        }
        let mut out = String::from_str(key.substring_char(0, 3));
        out.append("...");
        out.append(key.substring_char(n - 4, n));
        out
    }

    /// The path of an address, for diagnostics.
    pub fn extract_path(url: &str) -> (r: &str)
        ensures
            r@ == path_of(url@),
    {
        proof {
            reveal_strlit("://");
        }
        if let Some(i) = find(url, "://") {
            let n: usize = url.unicode_len();
            let rest = url.substring_char(i + 3, n);
            if let Some(j) = find(rest, "/") {
                let m: usize = rest.unicode_len();
                return rest.substring_char(j, m);
            }
        }
        url
    }

    /// The value of the `Authorization` header of every request.
    pub fn authorization(&self) -> (r: String)
        ensures
            r@ == bearer(self@.api_key),
    {
        let mut out = String::from_str("Bearer ");
        out.append(self.api_key.as_str());
        out
    }

    /// The retry policy of this client's requests.
    pub fn retry_policy(&self) -> (r: RetryPolicy)
        ensures
            r == (RetryPolicy {
                max_attempts: self@.max_retries,
                backoff_base_ms: BACKOFF_BASE_MS,
            }),
    {
        RetryPolicy::new(self.max_retries, BACKOFF_BASE_MS)
    }

    /// The state of a request before its first attempt.
    pub fn begin_request(&self) -> (r: RetryState)
        ensures
            r == (RetryState {
                policy: RetryPolicy {
                    max_attempts: self@.max_retries,
                    backoff_base_ms: BACKOFF_BASE_MS,
                },
                failed: 0,
            }),
    {
        RetryState::start(self.retry_policy())
    }
}

/// What is left of a string after its trailing run of `c` is gone does not
/// end in `c`, and is the string's beginning.
pub proof fn lemma_without_trailing(s: Seq<char>, c: char)
    ensures
        without_trailing(s, c).len() == 0 || without_trailing(s, c).last() != c,
        without_trailing(s, c).is_prefix_of(s),
    decreases s.len(),
{
    if s.len() > 0 && s.last() == c {
        lemma_without_trailing(s.drop_last(), c);
    }
}

/// What is left of a string after its leading run of `c` is gone does not
/// begin with `c`, and is the string's end.
pub proof fn lemma_without_leading(s: Seq<char>, c: char)
    ensures
        without_leading(s, c).len() == 0 || without_leading(s, c)[0] != c,
        without_leading(s, c).is_suffix_of(s),
    decreases s.len(),
{
    if s.len() > 0 && s[0] == c {
        lemma_without_leading(s.drop_first(), c);
    }
}

/// An absolute address is resolved to itself.
pub proof fn lemma_resolve_absolute(base: Seq<char>, path: Seq<char>)
    requires
        is_absolute(path),
    ensures
        resolved(base, path) == path,
{
}

/// A relative path is joined to the base address by exactly one slash: the
/// slash stands right behind the base, which does not end in one, and what
/// follows it does not begin with one.
pub proof fn lemma_resolve_single_separator(base: Seq<char>, path: Seq<char>)
    requires
        !is_absolute(path),
        base.len() == 0 || base.last() != '/',
    ensures
        resolved(base, path).len() == base.len() + 1 + without_leading(path, '/').len(),
        resolved(base, path).take(base.len() as int) == base,
        resolved(base, path)[base.len() as int] == '/',
        base.len() > 0 ==> resolved(base, path)[base.len() - 1] != '/',
        resolved(base, path).len() > base.len() + 1 ==> resolved(base, path)[base.len() as int + 1] != '/',
        resolved(base, path).skip(base.len() as int + 1) == without_leading(path, '/'),
{
    reveal_strlit("/");
    lemma_without_leading(path, '/');
    let rest = without_leading(path, '/');
    let r = resolved(base, path);
    assert("/"@ =~= seq!['/']);
    assert(r =~= base + seq!['/'] + rest);
    assert(r.take(base.len() as int) =~= base);
    assert(r.skip(base.len() as int + 1) =~= rest);
    if rest.len() > 0 {
        assert(r[base.len() as int + 1] == rest[0]);
    }
}

/// A path resolves to the same address with and without slashes before it.
pub proof fn lemma_resolve_ignores_leading_slash(base: Seq<char>, path: Seq<char>)
    requires
        !is_absolute(path),
        !is_absolute(seq!['/'] + path),
    ensures
        resolved(base, seq!['/'] + path) == resolved(base, path),
{
    let p = seq!['/'] + path;
    assert(p.drop_first() =~= path);
}

/// What a masked credential shows depends on nothing but the first 3 and
/// the last 4 characters of a credential of more than 7, and on nothing at
/// all of a shorter one: the middle never appears.
pub proof fn lemma_mask_hides_middle(a: Seq<char>, b: Seq<char>)
    requires
        (a.len() <= 7 && b.len() <= 7) || (a.len() > 7 && b.len() > 7 && a.take(3) == b.take(3)
            && a.skip(a.len() - 4) == b.skip(b.len() - 4)),
    ensures
        masked(a) == masked(b),
{
}

/// A masked credential is at most 10 characters long.
pub proof fn lemma_mask_length(key: Seq<char>)
    ensures
        masked(key).len() == if key.len() <= 7 {
            3nat
        } else {
            10nat
        },
{
    reveal_strlit("***");
    reveal_strlit("...");
}

} // verus!
