//! Request logging: whose address a request is logged under, and the line
//! that is written when it has been answered.

use crate::text::{before_first, head_is_before_first, split_once, text_of, trim, trimmed};
use vstd::prelude::*;
use vstd::string::StringExecFns;

verus! {

/// How requests are logged. `F` is the type of the level filter: a shared
/// function from a route to the level at which requests to it are logged.
pub struct LoggerConfig<F> {
    /// The level at which a request to the given route is logged.
    pub log_level_filter: F,
    /// Whether the first address of `x-forwarded-for` stands for the peer.
    pub honor_xff: bool,
    /// The name of the latency metric.
    pub metric_name: String,
}

impl<F: Clone> Clone for LoggerConfig<F> {
    /// A copy with the same settings and a copy of the filter.
    fn clone(&self) -> (copy: Self)
        ensures
            copy.honor_xff == self.honor_xff,
            copy.metric_name@ == self.metric_name@,
    {
        LoggerConfig {
            log_level_filter: self.log_level_filter.clone(),
            honor_xff: self.honor_xff,
            metric_name: self.metric_name.clone(),
        }
    }
}

/// The layer that wraps a service in `Logger`.
#[derive(Clone)]
pub struct LoggerLayer<F>(pub LoggerConfig<F>);

/// A service wrapped so that each request is logged once it is answered.
#[derive(Clone)]
pub struct Logger<S, F> {
    config: LoggerConfig<F>,
    inner: S,
}

/// What is noted of a request when it arrives, for the line written when it
/// has been answered.
#[derive(Clone, Debug, PartialEq, Eq)]
pub struct RequestNote {
    pub remote_addr: String,
    pub path: String,
    pub matched_path: String,
}

/// The address that a request is logged under: the first entry of the
/// forwarding list, trimmed, where the list is honoured and present, and
/// the peer's address otherwise.
pub open spec fn remote_address(
    honor_xff: bool,
    peer: Seq<char>,
    forwarded: Option<Seq<char>>,
) -> Seq<char> {
    match forwarded {
        Some(list) => if honor_xff {
            trimmed(before_first(list, ','))
        } else {
            peer
        },
        None => peer,
    }
}

/// The line that is logged for an answered request, up to the time taken.
pub open spec fn access_line_text(
    remote: Seq<char>,
    method: Seq<char>,
    path: Seq<char>,
    result: Seq<char>,
) -> Seq<char> {
    "["@ + remote + "] "@ + method + " "@ + path + " -> "@ + result
}

/// The address that a request is logged under.
pub fn client_address(honor_xff: bool, peer: String, forwarded: Option<&str>) -> (address: String)
    ensures
        address@ == remote_address(honor_xff, peer@, text_of(forwarded)),
{
    match forwarded {
        Some(list) => {
            if honor_xff {
                let first = match split_once(list, ',') {
                    Some((head, tail)) => {
                        proof {
                            head_is_before_first(list@, ',', head@, tail@);
                        }
                        head
                    },
                    None => list,
                };
                trim(first).to_owned()
            } else {
                peer
            }
        },
        None => peer,
    }
}

/// The line that is logged for an answered request, up to the time taken:
/// the address in brackets, the method, the path, an arrow and the result.
pub fn access_line(remote: &str, method: &str, path: &str, result: &str) -> (line: String)
    ensures
        line@ == access_line_text(remote@, method@, path@, result@),
{
    let mut line = "[".to_owned();
    line.append(remote);
    line.append("] ");
    line.append(method);
    line.append(" ");
    line.append(path);
    line.append(" -> ");
    line.append(result);
    line
}

/// The result that is logged for a request that the inner service failed
/// on: the word `FAIL` and the error.
pub fn failure_text(error: &str) -> (text: String)
    ensures
        text@ == "FAIL "@ + error@,
{
    let mut text = "FAIL ".to_owned();
    text.append(error);
    text
}

/// The status under which the latency of a request is recorded: that of the
/// response, or `INTERNAL` where the inner service failed.
pub fn metric_status(status: Option<&str>) -> (label: String)
    ensures
        label@ == match status {
            Some(code) => code@,
            None => "INTERNAL"@,
        },
{
    match status {
        Some(code) => code.to_owned(),
        None => "INTERNAL".to_owned(),
    }
}

impl<F> LoggerConfig<F> {
    /// Notes what the line for a request needs: the address it is logged
    /// under, its path, and the route it matched (empty where it matched
    /// none), which is what the level filter is asked about.
    pub fn note(
        &self,
        peer: String,
        forwarded: Option<&str>,
        path: &str,
        matched_path: Option<&str>,
    ) -> (noted: RequestNote)
        ensures
            noted.remote_addr@ == remote_address(self.honor_xff, peer@, text_of(forwarded)),
            noted.path@ == path@,
            noted.matched_path@ == match matched_path {
                Some(route) => route@,
                None => Seq::<char>::empty(),
            },
    {
        let remote_addr = client_address(self.honor_xff, peer, forwarded);
        let matched_path = match matched_path {
            Some(route) => route.to_owned(),
            None => String::new(),
        };
        RequestNote { remote_addr, path: path.to_owned(), matched_path }
    }
}

impl<S, F> Logger<S, F> {
    /// The service inside.
    pub closed spec fn wrapped(&self) -> S {
        self.inner
    }

    /// The configuration.
    pub closed spec fn settings(&self) -> LoggerConfig<F> {
        self.config
    }

    /// Wraps `inner`, to be logged as `config` says.
    pub fn new(config: LoggerConfig<F>, inner: S) -> (logger: Self)
        ensures
            logger.wrapped() == inner,
            logger.settings() == config,
    {
        Logger { config, inner }
    }

    /// Gives the service back.
    pub fn into_inner(self) -> (inner: S)
        ensures
            inner == self.wrapped(),
    {
        self.inner
    }

    /// Gives the configuration.
    pub fn config(&self) -> (config: &LoggerConfig<F>)
        ensures
            *config == self.settings(),
    {
        &self.config
    }
}

impl<F: Clone> LoggerLayer<F> {
    /// Wraps `service`, with a copy of the layer's configuration: the same
    /// settings, and a copy of the filter.
    pub fn layer<S>(&self, service: S) -> (logger: Logger<S, F>)
        ensures
            logger.wrapped() == service,
            logger.settings().honor_xff == self.0.honor_xff,
            logger.settings().metric_name@ == self.0.metric_name@,
    {
        Logger::new(self.0.clone(), service)
    }
}

} // verus!
