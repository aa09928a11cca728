//! The configuration: server, security, runner, database and projects.

use vstd::prelude::*;
use vstd::string::*;

use crate::text::{after_last, before_first, chars_of, find_after_last, find_first, join5, same_text};

verus! {

/// The whole configuration.
#[derive(Debug)]
pub struct AppConfig {
    pub server: ServerConfig,
    pub security: SecurityConfig,
    pub auth: Option<AuthConfig>,
    pub runner: RunnerConfig,
    pub database: Option<DatabaseConfig>,
    pub projects: Vec<ProjectConfig>,
}

/// Where the server listens.
#[derive(Debug)]
pub struct ServerConfig {
    pub listen: String,
}

/// The secret that webhook senders share with the server.
#[derive(Debug)]
pub struct SecurityConfig {
    pub github_webhook_secret: String,
}

/// The token that operators present.
#[derive(Debug)]
pub struct AuthConfig {
    pub api_token: String,
}

/// Where and how many jobs run.
#[derive(Debug)]
pub struct RunnerConfig {
    pub workspace_root: String,
    pub max_parallel_jobs: usize,
}

/// The database to connect to.
#[derive(Debug)]
pub struct DatabaseConfig {
    pub url: String,
    pub max_connections: Option<u32>,
}

/// An environment variable of a project's steps.
#[derive(Debug)]
pub struct EnvVar {
    pub name: String,
    pub value: String,
}

/// A project: the branch that it follows, the image that it builds and the steps
/// that deploy it.
#[derive(Debug)]
pub struct ProjectConfig {
    pub id: String,
    pub repository: String,
    pub branch: String,
    pub workdir: String,
    pub image: String,
    pub stable_tag: Option<String>,
    pub portainer_webhook: Option<String>,
    pub healthcheck_url: Option<String>,
    pub healthcheck_timeout_sec: Option<u64>,
    pub env: Vec<EnvVar>,
    pub steps: Vec<StepConfig>,
}

/// One step of a project's pipeline.
#[derive(Debug)]
pub struct StepConfig {
    pub name: String,
    pub run: String,
    pub shell: Option<String>,
    pub timeout_sec: Option<u64>,
    pub only_actions: Option<Vec<String>>,
    pub skip_actions: Option<Vec<String>>,
}

/// Whether `found` is the position of the first project that `wanted` holds of,
/// or nothing where it holds of none.
pub open spec fn is_first_project(
    projects: Seq<ProjectConfig>,
    wanted: spec_fn(ProjectConfig) -> bool,
    found: Option<usize>,
) -> bool {
    match found {
        Some(at) => {
            &&& at < projects.len()
            &&& wanted(projects[at as int])
            &&& forall|i: int| 0 <= i < at ==> !wanted(#[trigger] projects[i])
        },
        None => forall|i: int| 0 <= i < projects.len() ==> !wanted(#[trigger] projects[i]),
    }
}

/// The projects with a given id.
pub open spec fn has_id(id: Seq<char>) -> spec_fn(ProjectConfig) -> bool {
    |project: ProjectConfig| project.id@ == id
}

/// The projects that follow a given branch of a given repository.
pub open spec fn follows(repository: Seq<char>, branch: Seq<char>) -> spec_fn(ProjectConfig) -> bool {
    |project: ProjectConfig| project.repository@ == repository && project.branch@ == branch
}

/// Finds the project with an id.
pub fn find_project(projects: &Vec<ProjectConfig>, id: &str) -> (found: Option<usize>)
    ensures
        is_first_project(projects@, has_id(id@), found),
{
    let mut i: usize = 0;
    while i < projects.len()
        invariant
            i <= projects@.len(),
            forall|j: int| 0 <= j < i ==> !has_id(id@)(#[trigger] projects@[j]),
        decreases projects@.len() - i,
    {
        if same_text(projects[i].id.as_str(), id) {
            return Some(i);
        }
        i += 1;
    }
    None
}

/// Finds the project that follows a branch of a repository.
pub fn find_mapping(projects: &Vec<ProjectConfig>, repository: &str, branch: &str) -> (found: Option<
    usize,
>)
    ensures
        is_first_project(projects@, follows(repository@, branch@), found),
{
    let mut i: usize = 0;
    while i < projects.len()
        invariant
            i <= projects@.len(),
            forall|j: int|
                0 <= j < i ==> !follows(repository@, branch@)(#[trigger] projects@[j]),
        decreases projects@.len() - i,
    {
        if same_text(projects[i].repository.as_str(), repository) && same_text(
            projects[i].branch.as_str(),
            branch,
        ) {
            return Some(i);
        }
        i += 1;
    }
    None
}

/// The number of jobs that may run at a time: at least one.
pub fn worker_count(runner: &RunnerConfig) -> (count: usize)
    ensures
        count == if runner.max_parallel_jobs == 0 { 1 } else { runner.max_parallel_jobs },
{
    if runner.max_parallel_jobs == 0 {
        1
    } else {
        runner.max_parallel_jobs
    }
}

/// The size of the connection pool, five where the configuration sets none.
pub fn pool_size(database: &DatabaseConfig) -> (size: u32)
    ensures
        size == database.max_connections.unwrap_or(5),
{
    match database.max_connections {
        Some(size) => size,
        None => 5,
    }
}

/// The database name in a connection URL: what follows the last slash before the
/// query.
pub open spec fn database_name(url: Seq<char>) -> Seq<char> {
    after_last(before_first(url, '?'), '/')
}

/// Reads the database name out of a connection URL; there is none where it is
/// empty.
pub fn extract_database_name(database_url: &str) -> (name: Option<&str>)
    ensures
        match name {
            Some(name) => name@ == database_name(database_url@) && name@.len() > 0,
            None => database_name(database_url@).len() == 0,
        },
{
    let chars = chars_of(database_url);
    let end = find_first(&chars, '?');
    let start = find_after_last(&chars, end, '/');
    if start < end {
        Some(database_url.substring_char(start, end))
    } else {
        None
    }
}

/// The message for a database that does not exist.
pub open spec fn missing_database_text(name: Seq<char>) -> Seq<char> {
    "failed to connect to postgres: database \""@ + name
        + "\" does not exist. create it first (for example: createdb "@ + name
        + ") or update [database].url in config"@
}

/// Explains a failed connection: where the server's code says that the database
/// does not exist, a message that names it. Other failures are reported as they
/// are.
pub fn map_db_connect_error(code: Option<&str>, database_url: &str) -> (message: Option<String>)
    ensures
        match code {
            Some(code) if code@ == "3D000"@ => message matches Some(text) && text@
                == missing_database_text(
                if database_name(database_url@).len() == 0 {
                    "<unknown>"@
                } else {
                    database_name(database_url@)
                },
            ),
            _ => message is None,
        },
{
    match code {
        Some(code) => if same_text(code, "3D000") {
            let name = match extract_database_name(database_url) {
                Some(name) => name,
                None => "<unknown>",
            };
            Some(
                join5(
                    "failed to connect to postgres: database \"",
                    name,
                    "\" does not exist. create it first (for example: createdb ",
                    name,
                    ") or update [database].url in config",
                ),
            )
        } else {
            None
        },
        None => None,
    }
}

/// Law: a project is found by its id: the first whose id is the one asked for, and
/// none only where there is none.
pub proof fn project_is_found_by_its_id(
    projects: Seq<ProjectConfig>,
    id: Seq<char>,
    found: Option<usize>,
    i: int,
)
    requires
        is_first_project(projects, has_id(id), found),
        0 <= i < projects.len(),
    ensures
        found matches Some(at) ==> at < projects.len() && projects[at as int].id@ == id,
        projects[i].id@ == id ==> found is Some && found->0 <= i,
{
    assert(has_id(id)(projects[i]) == (projects[i].id@ == id));
}

/// Law: a project is found by the branch that it follows: the first whose repository
/// and branch are those asked for, and none only where there is none.
pub proof fn project_is_found_by_its_branch(
    projects: Seq<ProjectConfig>,
    repository: Seq<char>,
    branch: Seq<char>,
    found: Option<usize>,
    i: int,
)
    requires
        is_first_project(projects, follows(repository, branch), found),
        0 <= i < projects.len(),
    ensures
        found matches Some(at) ==> at < projects.len() && projects[at as int].repository@
            == repository && projects[at as int].branch@ == branch,
        projects[i].repository@ == repository && projects[i].branch@ == branch ==> found is Some
            && found->0 <= i,
{
    assert(follows(repository, branch)(projects[i]) == (projects[i].repository@ == repository
        && projects[i].branch@ == branch));
}

proof fn lemma_before_first(head: Seq<char>, mark: char, tail: Seq<char>)
    requires
        !head.contains(mark),
    ensures
        before_first(head, mark) == head,
        before_first(head + seq![mark] + tail, mark) == head,
    decreases head.len(),
{
    let s = head + seq![mark] + tail;
    if head.len() > 0 {
        let rest = head.skip(1);
        assert(head[0] != mark);
        assert(!rest.contains(mark)) by {
            if rest.contains(mark) {
                let i = choose|i: int| 0 <= i < rest.len() && rest[i] == mark;
                assert(head[i + 1] == mark);
            }
        }
        lemma_before_first(rest, mark, tail);
        assert(s.skip(1) =~= rest + seq![mark] + tail);
        assert(seq![head[0]] + rest =~= head);
    } else {
        assert(s[0] == mark);
        assert(before_first(s, mark) =~= head);
    }
}

proof fn lemma_after_last(head: Seq<char>, mark: char, tail: Seq<char>)
    requires
        !tail.contains(mark),
    ensures
        after_last(tail, mark) == tail,
        after_last(head + seq![mark] + tail, mark) == tail,
    decreases tail.len(),
{
    let s = head + seq![mark] + tail;
    if tail.len() > 0 {
        let rest = tail.drop_last();
        assert(tail.last() != mark);
        assert(!rest.contains(mark)) by {
            if rest.contains(mark) {
                let i = choose|i: int| 0 <= i < rest.len() && rest[i] == mark;
                assert(tail[i] == mark);
            }
        }
        lemma_after_last(head, mark, rest);
        assert(s.drop_last() =~= head + seq![mark] + rest);
        assert(rest.push(tail.last()) =~= tail);
        assert(s.last() == tail.last());
    } else {
        assert(s.last() == mark);
        assert(after_last(s, mark) =~= tail);
    }
}

/// Law: the database name in a connection URL is what stands behind the last slash, up
/// to the query, if there is one.
pub proof fn database_name_is_found(server: Seq<char>, name: Seq<char>, query: Seq<char>)
    requires
        !server.contains('?'),
        !name.contains('?'),
        !name.contains('/'),
    ensures
        database_name(server + seq!['/'] + name) == name,
        database_name(server + seq!['/'] + name + seq!['?'] + query) == name,
        database_name(name) == name,
{
    let head = server + seq!['/'] + name;
    assert(!head.contains('?')) by {
        if head.contains('?') {
            let i = choose|i: int| 0 <= i < head.len() && head[i] == '?';
            if i < server.len() {
                assert(server[i] == '?');
            } else if i > server.len() {
                assert(name[i - server.len() - 1] == '?');
            }
        }
    }
    lemma_before_first(head, '?', query);
    lemma_before_first(name, '?', query);
    lemma_after_last(server, '/', name);
}

/// Law: the message for a database that does not exist names it, and says how to make
/// it.
pub proof fn missing_database_is_named(name: Seq<char>)
    ensures
        missing_database_text(name) == "failed to connect to postgres: database \""@ + name
            + "\" does not exist. create it first (for example: createdb "@ + name
            + ") or update [database].url in config"@,
{
}

} // verus!
