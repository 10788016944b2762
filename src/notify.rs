//! The comment that reports a script's output on its pull request, and the
//! plan for posting it.
use vstd::prelude::*;
use vstd::string::{StrSliceExecFns, StringExecFns};

verus! {

/// The comment posted for a script's output: the output in a fenced block.
pub open spec fn comment_of(output: Seq<char>) -> Seq<char> {
    "Script execution results:\n```\n"@ + output + "\n```"@
}

/// Builds the comment that carries `output`.
pub fn comment_text(output: &str) -> (r: String)
    ensures
        r@ == comment_of(output@),
{
    let mut text = String::from_str("Script execution results:\n```\n");
    text.append(output);
    text.append("\n```");
    text
}

/// Whether `full` splits at its first `/` into `owner` and `name`.
pub open spec fn splits_at_first_slash(full: Seq<char>, owner: Seq<char>, name: Seq<char>) -> bool {
    &&& owner.len() < full.len()
    &&& full[owner.len() as int] == '/'
    &&& !owner.contains('/')
    &&& owner == full.subrange(0, owner.len() as int)
    &&& name == full.subrange(owner.len() as int + 1, full.len() as int)
}

/// Splits a repository's full name at its first `/` into owner and name;
/// `None` where it holds no `/`.
pub fn split_repository(full: &str) -> (r: Option<(String, String)>)
    ensures
        r is None <==> !full@.contains('/'),
        r matches Some((owner, name)) ==> splits_at_first_slash(full@, owner@, name@),
{
    let len = full.unicode_len();
    let mut i: usize = 0;
    while i < len
        invariant
            len == full@.len(),
            i <= len,
            !full@.subrange(0, i as int).contains('/'),
        decreases len - i,
    {
        if full.get_char(i) == '/' {
            let owner = String::from_str(full.substring_char(0, i));
            let name = String::from_str(full.substring_char(i + 1, len));
            return Some((owner, name));
        }
        proof {
            assert(full@.subrange(0, i + 1) =~= full@.subrange(0, i as int).push(full@[i as int]));
        }
        i = i + 1;
    }
    proof {
        assert(full@.subrange(0, i as int) =~= full@);
    }
    None
}

/// What to do about the comment on a pull request.
#[derive(Debug)]
pub enum CommentPlan {
    /// No token is configured: posting is skipped, and that is no failure.
    Skip,
    /// The repository's full name holds no `/`.
    InvalidRepository,
    /// Post `body` on issue `issue` of `owner/repo` with `token`.
    Post { token: String, owner: String, repo: String, issue: i64, body: String },
}

/// Decides how to report a script's output on pull request `number` of
/// `repository` (`owner/name`), given the configured token.
pub fn plan_comment(token: Option<String>, number: i64, comment: &str, repository: &str) -> (r:
    CommentPlan)
    ensures
        token is None ==> r is Skip,
        token is Some && !repository@.contains('/') ==> r is InvalidRepository,
        token is Some && repository@.contains('/') ==> (r matches CommentPlan::Post {
            token: t,
            owner,
            repo,
            issue,
            body,
        } && Some(t) == token && splits_at_first_slash(repository@, owner@, repo@) && issue
            == number && body@ == comment@),
{
    match token {
        None => CommentPlan::Skip,
        Some(t) => match split_repository(repository) {
            None => CommentPlan::InvalidRepository,
            Some((owner, repo)) => CommentPlan::Post {
                token: t,
                owner,
                repo,
                issue: number,
                body: String::from_str(comment),
            },
        },
    }
}

} // verus!
