//! Typed parameters from the fields of inbound requests. A request that
//! lacks a required field is refused before the registry is touched.
use vstd::prelude::*;
use crate::ids::parsed_uuid;
use crate::model::{CompilationStatus, Permission, ProjectState, SessionError, SessionId, UserDetails};
use crate::security::SecurityManager;

verus! {

/// Reads the session identifier from a request's `session_id` field.
pub fn extract_session_id(field: Option<&str>) -> (r: Result<SessionId, SessionError>)
    ensures
        field is None ==> r == Err::<SessionId, SessionError>(SessionError::MalformedRequest),
        field matches Some(s) ==> match parsed_uuid(s@) {
            Some(id) => r == Ok::<SessionId, SessionError>(id),
            None => r == Err::<SessionId, SessionError>(SessionError::InvalidToken),
        },
{
    match field {
        None => Err(SessionError::MalformedRequest),
        Some(token) => SecurityManager::new().validate_session_token(token),
    }
}

fn owned(s: Option<&str>) -> (r: Option<String>)
    ensures
        s is None ==> r is None,
        s matches Some(v) ==> (r matches Some(o) && o@ == v@),
{
    match s {
        Some(v) => Some(String::from_str(v)),
        None => None,
    }
}

/// The permission a request names: `read`, `write`, `admin` or `deploy`.
pub open spec fn permission_named(s: Seq<char>) -> Option<Permission> {
    if s == "read"@ {
        Some(Permission::Read)
    } else if s == "write"@ {
        Some(Permission::Write)
    } else if s == "admin"@ {
        Some(Permission::Admin)
    } else if s == "deploy"@ {
        Some(Permission::Deploy)
    } else {
        None
    }
}

/// The permissions a list of names grants, in order; a name that is no
/// permission grants nothing.
pub open spec fn named_permissions(names: Seq<String>) -> Seq<Permission>
    decreases names.len(),
{
    if names.len() == 0 {
        Seq::empty()
    } else {
        let rest = named_permissions(names.drop_last());
        match permission_named(names.last()@) {
            Some(p) => rest.push(p),
            None => rest,
        }
    }
}

/// Reads the permissions of a creation request from their names.
pub fn permissions_from_names(names: &Vec<String>) -> (r: Vec<Permission>)
    ensures
        r@ == named_permissions(names@),
{
    let mut out: Vec<Permission> = Vec::new();
    let mut i: usize = 0;
    while i < names.len()
        invariant
            i <= names@.len(),
            out@ == named_permissions(names@.take(i as int)),
        decreases names@.len() - i,
    {
        proof {
            assert(names@.take(i + 1).drop_last() =~= names@.take(i as int));
        }
        let name = &names[i];
        if *name == String::from_str("read") {
            out.push(Permission::Read);
        } else if *name == String::from_str("write") {
            out.push(Permission::Write);
        } else if *name == String::from_str("admin") {
            out.push(Permission::Admin);
        } else if *name == String::from_str("deploy") {
            out.push(Permission::Deploy);
        }
        i = i + 1;
    }
    assert(names@.take(i as int) =~= names@);
    out
}

/// Builds the user of a creation request from its fields: a missing
/// username or email takes the default one, tokens are kept as given, and
/// the permissions are those requested, or read, write and deploy when the
/// request lists none.
pub fn user_details_from_fields(
    username: Option<&str>,
    email: Option<&str>,
    github_token: Option<&str>,
    replit_token: Option<&str>,
    permissions: Option<Vec<Permission>>,
) -> (r: UserDetails)
    ensures
        username matches Some(u) ==> r.username@ == u@,
        username is None ==> r.username@ == "cathedral-dev"@,
        email matches Some(e) ==> r.email@ == e@,
        email is None ==> r.email@ == "dev@cathedral.magnus"@,
        github_token is None ==> r.github_token is None,
        github_token matches Some(t) ==> (r.github_token matches Some(g) && g@ == t@),
        replit_token is None ==> r.replit_token is None,
        replit_token matches Some(t) ==> (r.replit_token matches Some(g) && g@ == t@),
        permissions matches Some(p) ==> r.permissions@ == p@,
        permissions is None ==> r.permissions@ == seq![
            Permission::Read,
            Permission::Write,
            Permission::Deploy,
        ],
{
    UserDetails {
        username: match username {
            Some(u) => String::from_str(u),
            None => String::from_str("cathedral-dev"),
        },
        email: match email {
            Some(e) => String::from_str(e),
            None => String::from_str("dev@cathedral.magnus"),
        },
        github_token: owned(github_token),
        replit_token: owned(replit_token),
        permissions: match permissions {
            Some(p) => p,
            None => vec![Permission::Read, Permission::Write, Permission::Deploy],
        },
    }
}

/// The compilation status a sync request names by `kind` (`success`,
/// `error`, `in-progress` or `pending`), with `detail` as the message of a
/// success or an error. A request that names no kind, or one that is none of
/// these, reports the compilation ready.
pub open spec fn names_compilation_status(
    kind: Option<Seq<char>>,
    detail: Option<Seq<char>>,
    r: CompilationStatus,
) -> bool {
    let ready = r matches CompilationStatus::Success(m) && m@ == "Rust compilation ready"@;
    match kind {
        None => ready,
        Some(k) => if k == "success"@ {
            r matches CompilationStatus::Success(m) && m@ == match detail {
                Some(d) => d,
                None => "Rust compilation ready"@,
            }
        } else if k == "error"@ {
            r matches CompilationStatus::Error(m) && m@ == match detail {
                Some(d) => d,
                None => Seq::<char>::empty(),
            }
        } else if k == "in-progress"@ {
            r is InProgress
        } else if k == "pending"@ {
            r is Pending
        } else {
            ready
        },
    }
}

/// The view of an optional string.
pub open spec fn opt_view(s: Option<&str>) -> Option<Seq<char>> {
    match s {
        Some(v) => Some(v@),
        None => None,
    }
}

/// Reads the compilation status of a sync request from its kind and detail;
/// it never refuses a request.
pub fn extract_compilation_status(kind: Option<&str>, detail: Option<&str>) -> (r:
    CompilationStatus)
    ensures
        names_compilation_status(opt_view(kind), opt_view(detail), r),
{
    let ready = CompilationStatus::Success(String::from_str("Rust compilation ready"));
    match kind {
        None => ready,
        Some(k) => {
            let k = String::from_str(k);
            if k == String::from_str("success") {
                match detail {
                    Some(d) => CompilationStatus::Success(String::from_str(d)),
                    None => ready,
                }
            } else if k == String::from_str("error") {
                CompilationStatus::Error(
                    match detail {
                        Some(d) => String::from_str(d),
                        None => String::new(),
                    },
                )
            } else if k == String::from_str("in-progress") {
                CompilationStatus::InProgress
            } else if k == String::from_str("pending") {
                CompilationStatus::Pending
            } else {
                ready
            }
        },
    }
}

/// Builds the project state of a sync request from its fields: a missing
/// branch is `main`, the files are kept in order, the compilation status is
/// the one requested, and there is no deployment and no test results.
pub fn project_state_from_fields(
    branch: Option<&str>,
    files_modified: Vec<String>,
    compilation_status: CompilationStatus,
) -> (r: ProjectState)
    ensures
        branch matches Some(b) ==> r.current_branch@ == b@,
        branch is None ==> r.current_branch@ == "main"@,
        r.files_modified@ == files_modified@,
        r.compilation_status == compilation_status,
        r.deployment_status is None,
        r.test_results is None,
{
    ProjectState {
        current_branch: match branch {
            Some(b) => String::from_str(b),
            None => String::from_str("main"),
        },
        files_modified,
        compilation_status,
        deployment_status: None,
        test_results: None,
    }
}

} // verus!
