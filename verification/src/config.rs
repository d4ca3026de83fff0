//! The scheduler's configuration and the defaults that stand in for what it
//! leaves out.

use vstd::prelude::*;
use crate::request::{add_header, get_request, header_count, start_get, with_header, HEADER_ROOM};

verus! {

/// Minutes between two ticks where the configuration names none.
pub const DEFAULT_INTERVAL_MINS: u32 = 1;

/// Ticks between two fetches where the configuration names none.
pub const DEFAULT_FETCH_OCCURRENCE: u32 = 60;

/// A pinned answer that stands in for a fetch.
#[derive(Clone, Debug)]
pub struct FetchResponse {
    pub code: u16,
    pub content: String,
}

/// One request header.
#[derive(Clone, Debug)]
pub struct Header {
    pub name: String,
    pub value: String,
}

/// Where and how the schedule is fetched.
#[derive(Clone, Debug)]
pub struct Fetch {
    pub url: String,
    /// Headers sent with each request; no name occurs twice.
    pub headers: Option<Vec<Header>>,
    /// When present, used in place of a request.
    pub response: Option<FetchResponse>,
}

/// The scheduler's configuration.
#[derive(Clone, Debug)]
pub struct Config {
    pub version: Option<u8>,
    /// Minutes between two ticks.
    pub interval_mins: Option<u32>,
    /// A fetch is due on every tick whose count is a multiple of this.
    pub fetch_occurrence: Option<u32>,
    /// Commands run when the next event is fewer minutes away than this.
    pub threshold: u32,
    pub fetch: Option<Fetch>,
    /// Shell commands, run in order.
    pub commands: Option<Vec<String>>,
}

/// Whether no two headers have the same name.
pub open spec fn names_distinct(headers: Seq<Header>) -> bool {
    forall|i: int, j: int|
        0 <= i < j < headers.len() ==> (#[trigger] headers[i]).name@ != (#[trigger] headers[j]).name@
}

/// Why a configuration cannot be run.
#[derive(Clone, Copy, Debug, PartialEq, Eq, Structural)]
pub enum ConfigError {
    /// The tick interval is zero minutes.
    ZeroInterval,
    /// A fetch is asked for on every zeroth tick.
    ZeroFetchOccurrence,
    /// There are more headers than go into one request.
    TooManyHeaders,
    /// Two headers have the same name.
    DuplicateHeader,
}

/// The GET request for `url` with `headers` added to it one after another.
pub open spec fn request_spec(
    client: reqwest::Client,
    url: Seq<char>,
    headers: Seq<Header>,
) -> reqwest::RequestBuilder
    decreases headers.len(),
{
    if headers.len() == 0 {
        get_request(client, url)
    } else {
        with_header(
            request_spec(client, url, headers.drop_last()),
            headers.last().name@,
            headers.last().value@,
        )
    }
}

impl Fetch {
    /// The configured headers, in order; none where the list is absent.
    pub open spec fn header_list(&self) -> Seq<Header> {
        match self.headers {
            Some(h) => h@,
            None => Seq::empty(),
        }
    }

    /// Whether the headers are few enough to go into one request.
    pub open spec fn fits_request(&self) -> bool {
        self.header_list().len() <= HEADER_ROOM
    }

    /// Whether the headers are few enough to go into one request.
    pub fn check_fits_request(&self) -> (r: bool)
        ensures
            r == self.fits_request(),
    {
        match &self.headers {
            Some(h) => h.len() <= HEADER_ROOM,
            None => true,
        }
    }

    /// Whether no two headers have the same name.
    pub fn check_names_distinct(&self) -> (r: bool)
        ensures
            r == names_distinct(self.header_list()),
    {
        match &self.headers {
            None => true,
            Some(headers) => {
                let mut j: usize = 0;
                while j < headers.len()
                    invariant
                        0 <= j <= headers.len(),
                        headers@ == self.header_list(),
                        names_distinct(headers@.take(j as int)),
                    decreases headers.len() - j,
                {
                    let mut i: usize = 0;
                    while i < j
                        invariant
                            0 <= i <= j < headers.len(),
                            headers@ == self.header_list(),
                            forall|k: int|
                                0 <= k < i ==> (#[trigger] headers@[k]).name@ != headers@[j as int].name@,
                        decreases j - i,
                    {
                        if headers[i].name == headers[j].name {
                            assert(headers@[i as int].name@ == headers@[j as int].name@);
                            return false;
                        }
                        i += 1;
                    }
                    proof {
                        let shorter = headers@.take(j as int);
                        let longer = headers@.take(j + 1);
                        assert forall|a: int, b: int| 0 <= a < b < longer.len() implies (
                        #[trigger] longer[a]).name@ != (#[trigger] longer[b]).name@ by {
                            if b < j {
                                assert(shorter[a].name@ != shorter[b].name@);
                            } else {
                                assert(longer[a] == headers@[a]);
                            }
                        }
                    }
                    j += 1;
                }
                proof {
                    assert(headers@.take(j as int) =~= headers@);
                }
                true
            },
        }
    }

    /// The GET request for the configured URL, with every configured header
    /// added to it in order.
    pub fn to_reqwest(&self, client: &reqwest::Client) -> (r: reqwest::RequestBuilder)
        requires
            self.fits_request(),
        ensures
            r == request_spec(*client, self.url@, self.header_list()),
    {
        let mut request = start_get(client, self.url.as_str());
        if let Some(headers) = &self.headers {
            let mut i: usize = 0;
            while i < headers.len()
                invariant
                    0 <= i <= headers.len(),
                    headers.len() <= HEADER_ROOM,
                    headers@ == self.header_list(),
                    request == request_spec(*client, self.url@, headers@.take(i as int)),
                    header_count(request) <= i + 1,
                decreases headers.len() - i,
            {
                let header = &headers[i];
                proof {
                    assert(headers@.take(i + 1).drop_last() =~= headers@.take(i as int));
                    assert(headers@.take(i + 1).last() == *header);
                }
                request = add_header(request, header.name.as_str(), header.value.as_str());
                i += 1;
            }
            proof {
                assert(headers@.take(i as int) =~= headers@);
            }
        }
        request
    }
}

/// The texts of a sequence of strings.
pub open spec fn texts(strings: Seq<String>) -> Seq<Seq<char>> {
    Seq::new(strings.len(), |i: int| strings[i]@)
}

/// A copy of `strings`.
pub fn clone_texts(strings: &Vec<String>) -> (r: Vec<String>)
    ensures
        texts(r@) == texts(strings@),
{
    let mut copy: Vec<String> = Vec::new();
    let mut i: usize = 0;
    while i < strings.len()
        invariant
            0 <= i <= strings.len(),
            copy@.len() == i,
            forall|j: int| 0 <= j < i ==> copy@[j]@ == strings@[j]@,
        decreases strings.len() - i,
    {
        copy.push(strings[i].clone());
        i += 1;
    }
    assert(texts(copy@) =~= texts(strings@));
    copy
}

impl Config {
    /// Minutes between two ticks: as configured, else one.
    pub open spec fn interval_minutes_spec(&self) -> u32 {
        match self.interval_mins {
            Some(m) => m,
            None => DEFAULT_INTERVAL_MINS,
        }
    }

    /// Ticks between two fetches: as configured, else sixty.
    pub open spec fn fetch_cadence_spec(&self) -> u32 {
        match self.fetch_occurrence {
            Some(n) => n,
            None => DEFAULT_FETCH_OCCURRENCE,
        }
    }

    /// The configured commands, in order; none where the list is absent.
    pub open spec fn command_texts(&self) -> Seq<Seq<char>> {
        match self.commands {
            Some(c) => texts(c@),
            None => Seq::empty(),
        }
    }

    /// What stands in the way of running this configuration, if anything.
    pub open spec fn validate_spec(&self) -> Result<(), ConfigError> {
        if self.interval_minutes_spec() == 0 {
            Err(ConfigError::ZeroInterval)
        } else if self.fetch_cadence_spec() == 0 {
            Err(ConfigError::ZeroFetchOccurrence)
        } else {
            match self.fetch {
                Some(f) => if !f.fits_request() {
                    Err(ConfigError::TooManyHeaders)
                } else if !names_distinct(f.header_list()) {
                    Err(ConfigError::DuplicateHeader)
                } else {
                    Ok(())
                },
                None => Ok(()),
            }
        }
    }

    /// Whether this configuration can be run.
    pub open spec fn is_valid(&self) -> bool {
        self.validate_spec() is Ok
    }

    /// Checks that the configuration can be run: ticks and fetches recur at a
    /// cadence that is not zero, and the headers are few and named apart.
    pub fn validate(&self) -> (r: Result<(), ConfigError>)
        ensures
            r == self.validate_spec(),
    {
        if self.interval_minutes() == 0 {
            return Err(ConfigError::ZeroInterval);
        }
        if self.fetch_cadence() == 0 {
            return Err(ConfigError::ZeroFetchOccurrence);
        }
        match &self.fetch {
            Some(f) => if !f.check_fits_request() {
                Err(ConfigError::TooManyHeaders)
            } else if !f.check_names_distinct() {
                Err(ConfigError::DuplicateHeader)
            } else {
                Ok(())
            },
            None => Ok(()),
        }
    }

    /// The configuration that a fresh installation starts from.
    pub fn default() -> (r: Config)
        ensures
            r.version == Some(2u8),
            r.interval_mins == Some(5u32),
            r.fetch_occurrence == Some(12u32),
            r.threshold == 10,
            r.fetch matches Some(f) && f.url@ == Seq::<char>::empty() && f.headers is None
                && f.response is None,
            r.commands is Some,
            r.command_texts() == seq!["cat /etc/hostname"@, "date"@],
            r.is_valid(),
    {
        let mut commands: Vec<String> = Vec::new();
        commands.push("cat /etc/hostname".to_string());
        commands.push("date".to_string());
        proof {
            reveal_strlit("");
            assert(texts(commands@) =~= seq!["cat /etc/hostname"@, "date"@]);
        }
        Config {
            version: Some(2),
            interval_mins: Some(5),
            fetch_occurrence: Some(12),
            threshold: 10,
            fetch: Some(Fetch { url: "".to_string(), headers: None, response: None }),
            commands: Some(commands),
        }
    }

    /// Minutes between two ticks.
    pub fn interval_minutes(&self) -> (m: u32)
        ensures
            m == self.interval_minutes_spec(),
    {
        match self.interval_mins {
            Some(m) => m,
            None => DEFAULT_INTERVAL_MINS,
        }
    }

    /// Seconds between two ticks.
    pub fn interval_secs(&self) -> (s: u64)
        ensures
            s == self.interval_minutes_spec() * 60,
    {
        let minutes: u64 = self.interval_minutes() as u64;
        minutes * 60
    }

    /// Ticks between two fetches.
    pub fn fetch_cadence(&self) -> (n: u32)
        ensures
            n == self.fetch_cadence_spec(),
    {
        match self.fetch_occurrence {
            Some(n) => n,
            None => DEFAULT_FETCH_OCCURRENCE,
        }
    }

    /// A copy of the configured commands, in order.
    pub fn command_list(&self) -> (r: Vec<String>)
        ensures
            texts(r@) == self.command_texts(),
    {
        match &self.commands {
            Some(c) => clone_texts(c),
            None => {
                let none: Vec<String> = Vec::new();
                assert(texts(none@) =~= Seq::<Seq<char>>::empty());
                none
            },
        }
    }
}

} // verus!
