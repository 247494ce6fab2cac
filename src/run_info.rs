//! Metadata of the workflow run that asks for approval.
use vstd::prelude::*;
use vstd::string::*;

verus! {

/// Display strings describing the workflow run, read from its environment.
#[derive(Debug, PartialEq, Eq)]
pub struct GitHubInfo {
    pub github_server_url: String,
    pub github_repository: String,
    pub github_run_id: String,
    pub github_workflow: String,
    pub runner_os: String,
    pub github_actor: String,
}

/// `<server>/<repository>`
pub open spec fn repository_url_of(server: Seq<char>, repository: Seq<char>) -> Seq<char> {
    server + seq!['/'] + repository
}

/// `<server>/<repository>/actions/runs/<run id>`
pub open spec fn action_url_of(server: Seq<char>, repository: Seq<char>, run_id: Seq<char>) -> Seq<char> {
    repository_url_of(server, repository) + "/actions/runs/"@ + run_id
}

impl GitHubInfo {
    /// Link to this run's page.
    pub fn action_url(&self) -> (r: String)
        ensures
            r@ == action_url_of(self.github_server_url@, self.github_repository@, self.github_run_id@),
    {
        let mut r = self.repository_url();
        r.append("/actions/runs/");
        r.append(self.github_run_id.as_str());
        r
    }

    /// Link to the repository the run belongs to.
    pub fn repository_url(&self) -> (r: String)
        ensures
            r@ == repository_url_of(self.github_server_url@, self.github_repository@),
    {
        let mut r = self.github_server_url.clone();
        r.append("/");
        proof {
            reveal_strlit("/");
        }
        r.append(self.github_repository.as_str());
        r
    }
}

} // verus!
