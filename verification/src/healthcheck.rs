//! The health check that follows a pipeline.

use vstd::prelude::*;
use vstd::string::*;

use crate::config::ProjectConfig;
use crate::job::{LogLine, LogLineView};
use crate::text::{decimal, format_u64, join2, opt_text};

verus! {

/// Whether an HTTP status means success.
pub open spec fn is_success(status: u16) -> bool {
    200 <= status < 300
}

/// A line of the health check.
pub open spec fn health_line(level: Seq<char>, message: Seq<char>) -> LogLineView {
    LogLineView { level, stage: "healthcheck"@, message }
}

fn make_health_line(level: &'static str, message: String) -> (line: LogLine)
    ensures
        line@ == health_line(level@, message@),
{
    LogLine { level, stage: "healthcheck".to_owned(), message }
}

/// What came of one request: the status of the answer, or why there was none.
#[derive(Debug)]
pub enum Probe {
    Status(u16),
    Failed(String),
}

impl Probe {
    /// Whether the request shows that the service is well.
    pub open spec fn passes(self) -> bool {
        self matches Probe::Status(status) && is_success(status)
    }

    /// What is said of a request that does not show that the service is well.
    pub open spec fn complaint(self) -> Seq<char> {
        match self {
            Probe::Status(status) => "Healthcheck returned HTTP "@ + decimal(status as int),
            Probe::Failed(error) => "Healthcheck request failed: "@ + error@,
        }
    }
}

/// What follows from one request.
#[derive(Debug)]
pub enum ProbeVerdict {
    /// The service is well: log this and stop.
    Passed { status: u16, line: LogLine },
    /// Log this and try again after this many seconds.
    Again { line: LogLine, wait_secs: u64 },
}

/// What to do next.
#[derive(Debug)]
pub enum HealthAction {
    /// Send a request.
    Request,
    /// The time is over: the check has failed with this message.
    GiveUp(String),
}

/// The message with which a check fails that has taken `elapsed_secs` whole seconds;
/// nothing while it has time left.
pub open spec fn given_up(timeout_secs: u64, elapsed_secs: u64, last_error: Option<Seq<char>>) -> Option<
    Seq<char>,
> {
    if elapsed_secs < timeout_secs {
        None
    } else {
        Some(last_error.unwrap_or("healthcheck timed out"@))
    }
}

/// A health check under way.
#[derive(Debug)]
pub struct HealthCheck {
    url: String,
    timeout_secs: u64,
    last_error: Option<String>,
}

impl HealthCheck {
    /// The address that is asked.
    pub closed spec fn url(self) -> Seq<char> {
        self.url@
    }

    /// The number of seconds that the check may take.
    pub closed spec fn timeout_secs(self) -> u64 {
        self.timeout_secs
    }

    /// What was said of the latest request, if any.
    pub closed spec fn last_error(self) -> Option<Seq<char>> {
        opt_text(self.last_error)
    }

    /// Begins the health check of a project, for its timeout or a minute; there
    /// is none where the project names no address. The line is to be logged first.
    pub fn start(project: &ProjectConfig) -> (begun: Option<(HealthCheck, LogLine)>)
        ensures
            match begun {
                Some((check, line)) => {
                    &&& opt_text(project.healthcheck_url) == Some(check.url())
                    &&& check.timeout_secs() == project.healthcheck_timeout_sec.unwrap_or(60)
                    &&& check.last_error() is None
                    &&& line@ == health_line("info"@, "Checking "@ + check.url())
                },
                None => project.healthcheck_url is None,
            },
    {
        match &project.healthcheck_url {
            None => None,
            Some(url) => {
                let timeout_secs: u64 = match project.healthcheck_timeout_sec {
                    Some(secs) => secs,
                    None => 60,
                };
                let line = make_health_line("info", join2("Checking ", url.as_str()));
                Some((HealthCheck { url: url.clone(), timeout_secs, last_error: None }, line))
            },
        }
    }

    /// The address that is asked.
    pub fn address(&self) -> (url: &str)
        ensures
            url@ == self.url(),
    {
        self.url.as_str()
    }

    /// Decides, after `elapsed_secs` whole seconds, whether to send a request.
    pub fn poll(&self, elapsed_secs: u64) -> (action: HealthAction)
        ensures
            given_up(self.timeout_secs(), elapsed_secs, self.last_error()) == match action {
                HealthAction::Request => None,
                HealthAction::GiveUp(message) => Some(message@),
            },
    {
        if elapsed_secs < self.timeout_secs {
            return HealthAction::Request;
        }
        match &self.last_error {
            Some(error) => HealthAction::GiveUp(error.clone()),
            None => HealthAction::GiveUp("healthcheck timed out".to_owned()),
        }
    }

    /// Takes in what came of a request.
    pub fn answered(&mut self, probe: Probe) -> (verdict: ProbeVerdict)
        ensures
            final(self).url() == old(self).url(),
            final(self).timeout_secs() == old(self).timeout_secs(),
            match verdict {
                ProbeVerdict::Passed { status, line } => {
                    &&& probe == Probe::Status(status)
                    &&& is_success(status)
                    &&& line@ == health_line(
                        "info"@,
                        "Healthcheck passed with HTTP "@ + decimal(status as int),
                    )
                    &&& final(self).last_error() == old(self).last_error()
                },
                ProbeVerdict::Again { line, wait_secs } => {
                    &&& !probe.passes()
                    &&& line@ == health_line("warn"@, probe.complaint())
                    &&& wait_secs == 3
                    &&& final(self).last_error() == Some(probe.complaint())
                },
            },
    {
        let message = match probe {
            Probe::Status(status) => {
                let digits = format_u64(status as u64);
                if 200 <= status && status < 300 {
                    let line = make_health_line(
                        "info",
                        join2("Healthcheck passed with HTTP ", digits.as_str()),
                    );
                    return ProbeVerdict::Passed { status, line };
                }
                join2("Healthcheck returned HTTP ", digits.as_str())
            },
            Probe::Failed(error) => join2("Healthcheck request failed: ", error.as_str()),
        };
        self.last_error = Some(message.clone());
        ProbeVerdict::Again { line: make_health_line("warn", message), wait_secs: 3 }
    }
}

/// One turn of a health check: when it came, and what came of the request, if one
/// was sent.
pub struct Turn {
    pub elapsed_secs: u64,
    pub probe: Probe,
}

/// What comes of a health check after some turns, `last_error` being what was said
/// of the latest request before them; nothing while it is not decided.
pub open spec fn checked(turns: Seq<Turn>, timeout_secs: u64, last_error: Option<Seq<char>>) -> Option<
    Result<u16, Seq<char>>,
>
    decreases turns.len(),
{
    if turns.len() == 0 {
        None
    } else {
        let probe = turns[0].probe;
        match given_up(timeout_secs, turns[0].elapsed_secs, last_error) {
            Some(message) => Some(Err(message)),
            None => if probe.passes() {
                Some(Ok(probe->Status_0))
            } else {
                checked(turns.skip(1), timeout_secs, Some(probe.complaint()))
            },
        }
    }
}

/// Law: a health check passes with the first successful answer that comes before
/// its time is over.
pub proof fn first_success_passes(
    turns: Seq<Turn>,
    timeout_secs: u64,
    last_error: Option<Seq<char>>,
    at: int,
)
    requires
        0 <= at < turns.len(),
        forall|i: int| 0 <= i <= at ==> (#[trigger] turns[i]).elapsed_secs < timeout_secs,
        forall|i: int| 0 <= i < at ==> !(#[trigger] turns[i]).probe.passes(),
        turns[at].probe.passes(),
    ensures
        checked(turns, timeout_secs, last_error) == Some(
            Ok::<u16, Seq<char>>(turns[at].probe->Status_0),
        ),
    decreases turns.len(),
{
    assert(turns[0].elapsed_secs < timeout_secs);
    if at > 0 {
        let rest = turns.skip(1);
        assert(!turns[0].probe.passes());
        assert forall|i: int| 0 <= i <= at - 1 implies (#[trigger] rest[i]).elapsed_secs
            < timeout_secs by {
            assert(rest[i] == turns[i + 1]);
        }
        assert forall|i: int| 0 <= i < at - 1 implies !(#[trigger] rest[i]).probe.passes() by {
            assert(rest[i] == turns[i + 1]);
        }
        first_success_passes(rest, timeout_secs, Some(turns[0].probe.complaint()), at - 1);
    }
}

/// Law: a health check whose time is over before any answer was successful fails
/// with what was said of its latest request, or with a timeout where none was sent.
pub proof fn late_check_fails_with_the_last_complaint(
    turns: Seq<Turn>,
    timeout_secs: u64,
    last_error: Option<Seq<char>>,
    at: int,
)
    requires
        0 <= at < turns.len(),
        forall|i: int| 0 <= i < at ==> (#[trigger] turns[i]).elapsed_secs < timeout_secs,
        forall|i: int| 0 <= i < at ==> !(#[trigger] turns[i]).probe.passes(),
        turns[at].elapsed_secs >= timeout_secs,
    ensures
        checked(turns, timeout_secs, last_error) == Some(
            Err::<u16, Seq<char>>(
                if at == 0 {
                    last_error.unwrap_or("healthcheck timed out"@)
                } else {
                    turns[at - 1].probe.complaint()
                },
            ),
        ),
    decreases turns.len(),
{
    if at > 0 {
        let rest = turns.skip(1);
        assert(turns[0].elapsed_secs < timeout_secs);
        assert(!turns[0].probe.passes());
        assert forall|i: int| 0 <= i < at - 1 implies (#[trigger] rest[i]).elapsed_secs
            < timeout_secs && !rest[i].probe.passes() by {
            assert(rest[i] == turns[i + 1]);
        }
        late_check_fails_with_the_last_complaint(
            rest,
            timeout_secs,
            Some(turns[0].probe.complaint()),
            at - 1,
        );
    }
}

/// Law: a request passes exactly where it was answered with a status from 200 to 299;
/// what is said of another names its status or why there was none.
pub proof fn request_is_judged_by_its_status(status: u16, error: String)
    ensures
        Probe::Status(status).passes() <==> 200 <= status && status <= 299,
        !Probe::Failed(error).passes(),
        Probe::Status(status).complaint() == "Healthcheck returned HTTP "@ + decimal(
            status as int,
        ),
        Probe::Failed(error).complaint() == "Healthcheck request failed: "@ + error@,
{
}

/// Law: a health check gives up exactly once its time is over, and says what was said of
/// its latest request, if there was one.
pub proof fn check_gives_up_in_time(
    timeout_secs: u64,
    elapsed_secs: u64,
    last_error: Option<Seq<char>>,
)
    ensures
        given_up(timeout_secs, elapsed_secs, last_error) is Some <==> elapsed_secs
            >= timeout_secs,
        elapsed_secs >= timeout_secs && last_error is Some ==> given_up(
            timeout_secs,
            elapsed_secs,
            last_error,
        ) == last_error,
        elapsed_secs >= timeout_secs && last_error is None ==> given_up(
            timeout_secs,
            elapsed_secs,
            last_error,
        ) == Some("healthcheck timed out"@),
{
}

/// Law: a line of the health check is logged at its stage, with its level and message.
pub proof fn health_lines_are_marked(level: Seq<char>, message: Seq<char>)
    ensures
        health_line(level, message).level == level,
        health_line(level, message).stage == "healthcheck"@,
        health_line(level, message).message == message,
{
}

} // verus!
