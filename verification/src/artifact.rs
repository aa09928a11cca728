//! The digest of a job's image: asked of the registry, or else read out of the
//! job's log.

use vstd::prelude::*;
use vstd::string::*;

use crate::job::{log_view, JobLogEntry, JobView, LogEntryView, LogLine, LogLineView};
use crate::outside::{decode_utf8_lossy, first_digest, regex_find, starts_with_digest, utf8_lossy};
use crate::store::StateStore;
use crate::text::{join2, join5, opt_text};

verus! {

/// Finds the first digest in a text.
pub fn extract_digest_from_text(value: &str) -> (digest: Option<String>)
    ensures
        opt_text(digest) == first_digest(value@),
{
    match regex_find("sha256:[0-9a-f]{64}", value) {
        Ok(digest) => digest,
        Err(_) => None,
    }
}

/// The first digest in the latest line that holds one.
pub open spec fn latest_digest(logs: Seq<LogEntryView>) -> Option<Seq<char>>
    decreases logs.len(),
{
    if logs.len() == 0 {
        None
    } else {
        match first_digest(logs.last().message) {
            Some(digest) => Some(digest),
            None => latest_digest(logs.drop_last()),
        }
    }
}

/// Finds the digest in the latest line of a log that holds one.
pub fn extract_digest_from_logs(entries: &Vec<JobLogEntry>) -> (digest: Option<String>)
    ensures
        opt_text(digest) == latest_digest(log_view(entries@)),
{
    let ghost logs = log_view(entries@);
    let mut i: usize = entries.len();
    assert(logs.take(i as int) =~= logs);
    while i > 0
        invariant
            i <= entries@.len(),
            logs == log_view(entries@),
            latest_digest(logs) == latest_digest(logs.take(i as int)),
        decreases i,
    {
        assert(logs.take(i as int).last() == entries@[i - 1]@);
        assert(logs.take(i as int).drop_last() =~= logs.take(i - 1));
        let digest = extract_digest_from_text(entries[i - 1].message.as_str());
        if digest.is_some() {
            return digest;
        }
        i -= 1;
    }
    None
}

/// The shell command that prints what the registry knows of an image.
pub open spec fn inspect_text(image_reference: Seq<char>) -> Seq<char> {
    "docker buildx imagetools inspect '"@ + image_reference
        + "' 2>/dev/null || docker manifest inspect '"@ + image_reference + "' 2>/dev/null"@
}

/// What is needed to find the digest of a job's image.
#[derive(Debug)]
pub struct ArtifactProbe {
    /// The command to be run by `/bin/sh`.
    pub command: String,
    /// The digest to be taken where the command gives none.
    pub fallback: Option<String>,
}

/// Prepares the search for the digest of a job's image; there is nothing to search
/// where there is no such job.
pub fn probe_artifact(store: &StateStore, id: u128) -> (probe: Option<ArtifactProbe>)
    requires
        store.wf(),
    ensures
        match probe {
            Some(probe) => {
                &&& store@.jobs.contains_key(id)
                &&& probe.command@ == inspect_text(store@.jobs[id].image_reference)
                &&& opt_text(probe.fallback) == latest_digest(store@.jobs[id].logs)
            },
            None => !store@.jobs.contains_key(id),
        },
{
    match store.get_job(id) {
        None => None,
        Some(job) => {
            let command = join5(
                "docker buildx imagetools inspect '",
                job.image_reference.as_str(),
                "' 2>/dev/null || docker manifest inspect '",
                job.image_reference.as_str(),
                "' 2>/dev/null",
            );
            let fallback = extract_digest_from_logs(&job.logs);
            Some(ArtifactProbe { command, fallback })
        },
    }
}

/// A digest that the registry gave, and the line that tells of it.
#[derive(Debug)]
pub struct ResolvedDigest {
    pub digest: String,
    pub line: LogLine,
}

/// The line that tells of a digest.
pub open spec fn digest_line(digest: Seq<char>) -> LogLineView {
    LogLineView {
        level: "info"@,
        stage: "artifact"@,
        message: "Resolved image digest "@ + digest,
    }
}

/// Reads the digest out of what a command printed, as text.
pub fn read_digest(printed: &str) -> (resolved: Option<ResolvedDigest>)
    ensures
        match resolved {
            Some(resolved) => {
                &&& first_digest(printed@) == Some(resolved.digest@)
                &&& resolved.line@ == digest_line(resolved.digest@)
            },
            None => first_digest(printed@) is None,
        },
{
    match extract_digest_from_text(printed) {
        None => None,
        Some(digest) => {
            let line = LogLine {
                level: "info",
                stage: "artifact".to_owned(),
                message: join2("Resolved image digest ", digest.as_str()),
            };
            Some(ResolvedDigest { digest, line })
        },
    }
}

/// Reads the digest out of the output of the command that asks the registry; there
/// is none where the command failed.
pub fn resolve_image_digest(succeeded: bool, stdout: &[u8]) -> (resolved: Option<ResolvedDigest>)
    ensures
        match resolved {
            Some(resolved) => {
                &&& succeeded
                &&& first_digest(utf8_lossy(stdout@)) == Some(resolved.digest@)
                &&& resolved.line@ == digest_line(resolved.digest@)
            },
            None => !succeeded || first_digest(utf8_lossy(stdout@)) is None,
        },
{
    if !succeeded {
        return None;
    }
    read_digest(decode_utf8_lossy(stdout).as_str())
}

/// The digest that is kept: that of the registry, or else that of the log.
pub open spec fn chosen_digest(resolved: Option<Seq<char>>, fallback: Option<Seq<char>>) -> Option<
    Seq<char>,
> {
    match resolved {
        Some(digest) => Some(digest),
        None => fallback,
    }
}

/// Keeps the digest of a job's image, where one was found and none was known; says
/// whether the job is to be stored again.
pub fn hydrate_job_artifact_metadata(
    store: &mut StateStore,
    id: u128,
    resolved: Option<String>,
    fallback: Option<String>,
) -> (persist: bool)
    requires
        old(store).wf(),
    ensures
        final(store).wf(),
        match chosen_digest(opt_text(resolved), opt_text(fallback)) {
            Some(digest) => {
                &&& persist
                &&& final(store)@ == old(store)@.update(
                    id,
                    |job: JobView| job.with_digest(digest),
                )
            },
            None => !persist && final(store)@ == old(store)@,
        },
{
    let digest = match resolved {
        Some(digest) => Some(digest),
        None => fallback,
    };
    match digest {
        Some(digest) => {
            store.set_digest(id, digest);
            true
        },
        None => false,
    }
}

/// Law: what is found in a text is a digest, `sha256:` and 64 lower-case
/// hexadecimal digits, and stands in the text.
pub proof fn found_digest_is_well_formed(text: Seq<char>, digest: Seq<char>)
    requires
        first_digest(text) == Some(digest),
    ensures
        digest.len() == 71,
        starts_with_digest(digest),
        exists|at: int|
            0 <= at <= text.len() - 71 && #[trigger] text.subrange(at, at + 71) == digest,
    decreases text.len(),
{
    if starts_with_digest(text) {
        reveal_strlit("sha256:");
        assert("sha256:"@ =~= digest.subrange(0, 7)) by {
            assert("sha256:"@ =~= text.subrange(0, 7));
        }
        assert(text.subrange(0, 0int + 71) =~= digest);
    } else {
        let rest = text.skip(1);
        found_digest_is_well_formed(rest, digest);
        let at = choose|at: int|
            0 <= at <= rest.len() - 71 && #[trigger] rest.subrange(at, at + 71) == digest;
        assert(text.subrange(at + 1, (at + 1) + 71) =~= rest.subrange(at, at + 71));
    }
}

/// Law: a digest that stands anywhere in a text is found, or one before it is.
pub proof fn standing_digest_is_found(text: Seq<char>, at: int)
    requires
        0 <= at < text.len(),
        starts_with_digest(text.skip(at)),
    ensures
        first_digest(text) is Some,
    decreases text.len(),
{
    if !starts_with_digest(text) {
        assert(text.skip(0) =~= text);
        assert(text.skip(1).skip(at - 1) =~= text.skip(at));
        standing_digest_is_found(text.skip(1), at - 1);
    }
}

/// Law: a digest that is known is kept, whatever is found later.
pub proof fn known_digest_is_kept(job: JobView, digest: Seq<char>)
    requires
        job.image_digest is Some,
    ensures
        job.with_digest(digest) == job,
{
}

/// Law: the digest of a log is the first one in a line behind which no line holds any;
/// there is none exactly where no line holds any.
pub proof fn log_gives_its_latest_digest(logs: Seq<LogEntryView>, at: int)
    requires
        0 <= at < logs.len(),
        forall|i: int| at < i < logs.len() ==> first_digest((#[trigger] logs[i]).message) is None,
    ensures
        first_digest(logs[at].message) is Some ==> latest_digest(logs) == first_digest(
            logs[at].message,
        ),
        latest_digest(logs) is None <==> forall|i: int|
            0 <= i < logs.len() ==> first_digest((#[trigger] logs[i]).message) is None,
    decreases logs.len(),
{
    let earlier = logs.drop_last();
    lemma_log_without_digest(logs);
    if at < logs.len() - 1 {
        assert(first_digest(logs[logs.len() - 1].message) is None);
        assert forall|i: int| at < i < earlier.len() implies first_digest(
            (#[trigger] earlier[i]).message,
        ) is None by {
            assert(earlier[i] == logs[i]);
        }
        log_gives_its_latest_digest(earlier, at);
    }
}

proof fn lemma_log_without_digest(logs: Seq<LogEntryView>)
    ensures
        latest_digest(logs) is None <==> forall|i: int|
            0 <= i < logs.len() ==> first_digest((#[trigger] logs[i]).message) is None,
    decreases logs.len(),
{
    if logs.len() > 0 {
        let earlier = logs.drop_last();
        lemma_log_without_digest(earlier);
        assert forall|i: int| 0 <= i < earlier.len() implies #[trigger] earlier[i] == logs[i] by {}
        if latest_digest(logs) is None {
            assert forall|i: int| 0 <= i < logs.len() implies first_digest(
                (#[trigger] logs[i]).message,
            ) is None by {
                if i < earlier.len() {
                    assert(earlier[i] == logs[i]);
                }
            }
        } else if first_digest(logs.last().message) is Some {
            assert(first_digest(logs[logs.len() - 1].message) is Some);
        } else {
            let i = choose|i: int|
                0 <= i < earlier.len() && first_digest((#[trigger] earlier[i]).message) is Some;
            assert(first_digest(logs[i].message) is Some);
        }
    }
}

/// Law: the digest that the registry gives is kept, and that of the log only where the
/// registry gives none.
pub proof fn registry_comes_before_the_log(
    resolved: Option<Seq<char>>,
    fallback: Option<Seq<char>>,
)
    ensures
        resolved is Some ==> chosen_digest(resolved, fallback) == resolved,
        resolved is None ==> chosen_digest(resolved, fallback) == fallback,
{
}

/// Law: the registry is asked, in two ways, for the image reference of the job, and the
/// digest that it gives is logged.
pub proof fn registry_is_asked_for_the_image(image_reference: Seq<char>, digest: Seq<char>)
    ensures
        inspect_text(image_reference) == "docker buildx imagetools inspect '"@ + image_reference
            + "' 2>/dev/null || docker manifest inspect '"@ + image_reference + "' 2>/dev/null"@,
        digest_line(digest).level == "info"@,
        digest_line(digest).stage == "artifact"@,
        digest_line(digest).message == "Resolved image digest "@ + digest,
{
}

} // verus!
