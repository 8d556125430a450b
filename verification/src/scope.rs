use vstd::prelude::*;

verus! {

/// A GitHub permission scope, drawn from a fixed, closed catalog. Each value
/// has exactly one canonical wire-format name; the mapping is an explicit
/// serialization table, never derived from the variant names at runtime.
#[derive(Clone, Copy, Debug, PartialEq, Eq, Structural)]
pub enum Scope {
    Repo,
    RepoStatus,
    RepoDeployment,
    PublicRepo,
    RepoInvite,
    SecurityEvents,
    AdminRepoHook,
    WriteRepoHook,
    ReadRepoHook,
    AdminOrg,
    WriteOrg,
    ReadOrg,
    AdminPublicKey,
    WritePublicKey,
    ReadPublicKey,
    AdminOrgHook,
    Gist,
    Notifications,
    User,
    ReadUser,
    UserEmail,
    UserFollow,
    DeleteRepo,
    WriteDiscussion,
    ReadDiscussion,
    WritePackages,
    ReadPackages,
    DeletePackages,
    AdminGpgKey,
    WriteGpgKey,
    ReadGpgKey,
    Workflow,
}

/// Failure to recognize a wire-format scope name.
#[derive(Clone, Copy, Debug, PartialEq, Eq, Structural)]
pub enum ScopeError {
    UnknownScope,
}

impl Scope {
    /// The canonical wire-format name of this scope.
    pub open spec fn wire_spec(self) -> Seq<char> {
        match self {
            Scope::Repo => "repo"@,
            Scope::RepoStatus => "repo:status"@,
            Scope::RepoDeployment => "repo_deployment"@,
            Scope::PublicRepo => "public_repo"@,
            Scope::RepoInvite => "repo:invite"@,
            Scope::SecurityEvents => "security_events"@,
            Scope::AdminRepoHook => "admin:repo_hook"@,
            Scope::WriteRepoHook => "write:repo_hook"@,
            Scope::ReadRepoHook => "read:repo_hook"@,
            Scope::AdminOrg => "admin:org"@,
            Scope::WriteOrg => "write:org"@,
            Scope::ReadOrg => "read:org"@,
            Scope::AdminPublicKey => "admin:public_key"@,
            Scope::WritePublicKey => "write:public_key"@,
            Scope::ReadPublicKey => "read:public_key"@,
            Scope::AdminOrgHook => "admin:org_hook"@,
            Scope::Gist => "gist"@,
            Scope::Notifications => "notifications"@,
            Scope::User => "user"@,
            Scope::ReadUser => "read:user"@,
            Scope::UserEmail => "user:email"@,
            Scope::UserFollow => "user:follow"@,
            Scope::DeleteRepo => "delete_repo"@,
            Scope::WriteDiscussion => "write:discussion"@,
            Scope::ReadDiscussion => "read:discussion"@,
            Scope::WritePackages => "write:packages"@,
            Scope::ReadPackages => "read:packages"@,
            Scope::DeletePackages => "delete:packages"@,
            Scope::AdminGpgKey => "admin:gpg_key"@,
            Scope::WriteGpgKey => "write:gpg_key"@,
            Scope::ReadGpgKey => "read:gpg_key"@,
            Scope::Workflow => "workflow"@,
        }
    }

    /// Serialize this scope into its wire-format name.
    pub fn wire(self) -> (r: String)
        ensures
            r@ == self.wire_spec(),
    {
        match self {
            Scope::Repo => "repo".to_owned(),
            Scope::RepoStatus => "repo:status".to_owned(),
            Scope::RepoDeployment => "repo_deployment".to_owned(),
            Scope::PublicRepo => "public_repo".to_owned(),
            Scope::RepoInvite => "repo:invite".to_owned(),
            Scope::SecurityEvents => "security_events".to_owned(),
            Scope::AdminRepoHook => "admin:repo_hook".to_owned(),
            Scope::WriteRepoHook => "write:repo_hook".to_owned(),
            Scope::ReadRepoHook => "read:repo_hook".to_owned(),
            Scope::AdminOrg => "admin:org".to_owned(),
            Scope::WriteOrg => "write:org".to_owned(),
            Scope::ReadOrg => "read:org".to_owned(),
            Scope::AdminPublicKey => "admin:public_key".to_owned(),
            Scope::WritePublicKey => "write:public_key".to_owned(),
            Scope::ReadPublicKey => "read:public_key".to_owned(),
            Scope::AdminOrgHook => "admin:org_hook".to_owned(),
            Scope::Gist => "gist".to_owned(),
            Scope::Notifications => "notifications".to_owned(),
            Scope::User => "user".to_owned(),
            Scope::ReadUser => "read:user".to_owned(),
            Scope::UserEmail => "user:email".to_owned(),
            Scope::UserFollow => "user:follow".to_owned(),
            Scope::DeleteRepo => "delete_repo".to_owned(),
            Scope::WriteDiscussion => "write:discussion".to_owned(),
            Scope::ReadDiscussion => "read:discussion".to_owned(),
            Scope::WritePackages => "write:packages".to_owned(),
            Scope::ReadPackages => "read:packages".to_owned(),
            Scope::DeletePackages => "delete:packages".to_owned(),
            Scope::AdminGpgKey => "admin:gpg_key".to_owned(),
            Scope::WriteGpgKey => "write:gpg_key".to_owned(),
            Scope::ReadGpgKey => "read:gpg_key".to_owned(),
            Scope::Workflow => "workflow".to_owned(),
        }
    }

    /// What parsing a wire-format name yields: the unique scope whose wire
    /// name matches, if any.
    pub open spec fn parse_spec(t: Seq<char>) -> Option<Scope> {
        if t == "repo"@ {
            Some(Scope::Repo)
        } else if t == "repo:status"@ {
            Some(Scope::RepoStatus)
        } else if t == "repo_deployment"@ {
            Some(Scope::RepoDeployment)
        } else if t == "public_repo"@ {
            Some(Scope::PublicRepo)
        } else if t == "repo:invite"@ {
            Some(Scope::RepoInvite)
        } else if t == "security_events"@ {
            Some(Scope::SecurityEvents)
        } else if t == "admin:repo_hook"@ {
            Some(Scope::AdminRepoHook)
        } else if t == "write:repo_hook"@ {
            Some(Scope::WriteRepoHook)
        } else if t == "read:repo_hook"@ {
            Some(Scope::ReadRepoHook)
        } else if t == "admin:org"@ {
            Some(Scope::AdminOrg)
        } else if t == "write:org"@ {
            Some(Scope::WriteOrg)
        } else if t == "read:org"@ {
            Some(Scope::ReadOrg)
        } else if t == "admin:public_key"@ {
            Some(Scope::AdminPublicKey)
        } else if t == "write:public_key"@ {
            Some(Scope::WritePublicKey)
        } else if t == "read:public_key"@ {
            Some(Scope::ReadPublicKey)
        } else if t == "admin:org_hook"@ {
            Some(Scope::AdminOrgHook)
        } else if t == "gist"@ {
            Some(Scope::Gist)
        } else if t == "notifications"@ {
            Some(Scope::Notifications)
        } else if t == "user"@ {
            Some(Scope::User)
        } else if t == "read:user"@ {
            Some(Scope::ReadUser)
        } else if t == "user:email"@ {
            Some(Scope::UserEmail)
        } else if t == "user:follow"@ {
            Some(Scope::UserFollow)
        } else if t == "delete_repo"@ {
            Some(Scope::DeleteRepo)
        } else if t == "write:discussion"@ {
            Some(Scope::WriteDiscussion)
        } else if t == "read:discussion"@ {
            Some(Scope::ReadDiscussion)
        } else if t == "write:packages"@ {
            Some(Scope::WritePackages)
        } else if t == "read:packages"@ {
            Some(Scope::ReadPackages)
        } else if t == "delete:packages"@ {
            Some(Scope::DeletePackages)
        } else if t == "admin:gpg_key"@ {
            Some(Scope::AdminGpgKey)
        } else if t == "write:gpg_key"@ {
            Some(Scope::WriteGpgKey)
        } else if t == "read:gpg_key"@ {
            Some(Scope::ReadGpgKey)
        } else if t == "workflow"@ {
            Some(Scope::Workflow)
        } else {
            None
        }
    }

    /// Parse a wire-format name back into a scope; an unrecognized name is
    /// rejected with `UnknownScope`.
    pub fn parse(s: &str) -> (r: Result<Scope, ScopeError>)
        ensures
            match Scope::parse_spec(s@) {
                Some(sc) => r == Ok::<Scope, ScopeError>(sc),
                None => r == Err::<Scope, ScopeError>(ScopeError::UnknownScope),
            },
    {
        let t = s.to_owned();
        if t == "repo".to_owned() {
            Ok(Scope::Repo)
        } else if t == "repo:status".to_owned() {
            Ok(Scope::RepoStatus)
        } else if t == "repo_deployment".to_owned() {
            Ok(Scope::RepoDeployment)
        } else if t == "public_repo".to_owned() {
            Ok(Scope::PublicRepo)
        } else if t == "repo:invite".to_owned() {
            Ok(Scope::RepoInvite)
        } else if t == "security_events".to_owned() {
            Ok(Scope::SecurityEvents)
        } else if t == "admin:repo_hook".to_owned() {
            Ok(Scope::AdminRepoHook)
        } else if t == "write:repo_hook".to_owned() {
            Ok(Scope::WriteRepoHook)
        } else if t == "read:repo_hook".to_owned() {
            Ok(Scope::ReadRepoHook)
        } else if t == "admin:org".to_owned() {
            Ok(Scope::AdminOrg)
        } else if t == "write:org".to_owned() {
            Ok(Scope::WriteOrg)
        } else if t == "read:org".to_owned() {
            Ok(Scope::ReadOrg)
        } else if t == "admin:public_key".to_owned() {
            Ok(Scope::AdminPublicKey)
        } else if t == "write:public_key".to_owned() {
            Ok(Scope::WritePublicKey)
        } else if t == "read:public_key".to_owned() {
            Ok(Scope::ReadPublicKey)
        } else if t == "admin:org_hook".to_owned() {
            Ok(Scope::AdminOrgHook)
        } else if t == "gist".to_owned() {
            Ok(Scope::Gist)
        } else if t == "notifications".to_owned() {
            Ok(Scope::Notifications)
        } else if t == "user".to_owned() {
            Ok(Scope::User)
        } else if t == "read:user".to_owned() {
            Ok(Scope::ReadUser)
        } else if t == "user:email".to_owned() {
            Ok(Scope::UserEmail)
        } else if t == "user:follow".to_owned() {
            Ok(Scope::UserFollow)
        } else if t == "delete_repo".to_owned() {
            Ok(Scope::DeleteRepo)
        } else if t == "write:discussion".to_owned() {
            Ok(Scope::WriteDiscussion)
        } else if t == "read:discussion".to_owned() {
            Ok(Scope::ReadDiscussion)
        } else if t == "write:packages".to_owned() {
            Ok(Scope::WritePackages)
        } else if t == "read:packages".to_owned() {
            Ok(Scope::ReadPackages)
        } else if t == "delete:packages".to_owned() {
            Ok(Scope::DeletePackages)
        } else if t == "admin:gpg_key".to_owned() {
            Ok(Scope::AdminGpgKey)
        } else if t == "write:gpg_key".to_owned() {
            Ok(Scope::WriteGpgKey)
        } else if t == "read:gpg_key".to_owned() {
            Ok(Scope::ReadGpgKey)
        } else if t == "workflow".to_owned() {
            Ok(Scope::Workflow)
        } else {
            Err(ScopeError::UnknownScope)
        }
    }

    /// The complete ordered catalog of scopes.
    pub open spec fn catalog_spec() -> Seq<Scope> {
        seq![
            Scope::Repo,
            Scope::RepoStatus,
            Scope::RepoDeployment,
            Scope::PublicRepo,
            Scope::RepoInvite,
            Scope::SecurityEvents,
            Scope::AdminRepoHook,
            Scope::WriteRepoHook,
            Scope::ReadRepoHook,
            Scope::AdminOrg,
            Scope::WriteOrg,
            Scope::ReadOrg,
            Scope::AdminPublicKey,
            Scope::WritePublicKey,
            Scope::ReadPublicKey,
            Scope::AdminOrgHook,
            Scope::Gist,
            Scope::Notifications,
            Scope::User,
            Scope::ReadUser,
            Scope::UserEmail,
            Scope::UserFollow,
            Scope::DeleteRepo,
            Scope::WriteDiscussion,
            Scope::ReadDiscussion,
            Scope::WritePackages,
            Scope::ReadPackages,
            Scope::DeletePackages,
            Scope::AdminGpgKey,
            Scope::WriteGpgKey,
            Scope::ReadGpgKey,
            Scope::Workflow,
        ]
    }

    /// The complete ordered catalog of scopes, as a vector.
    pub fn all() -> (r: Vec<Scope>)
        ensures
            r@ == Scope::catalog_spec(),
    {
        let mut v: Vec<Scope> = Vec::new();
        v.push(Scope::Repo);
        v.push(Scope::RepoStatus);
        v.push(Scope::RepoDeployment);
        v.push(Scope::PublicRepo);
        v.push(Scope::RepoInvite);
        v.push(Scope::SecurityEvents);
        v.push(Scope::AdminRepoHook);
        v.push(Scope::WriteRepoHook);
        v.push(Scope::ReadRepoHook);
        v.push(Scope::AdminOrg);
        v.push(Scope::WriteOrg);
        v.push(Scope::ReadOrg);
        v.push(Scope::AdminPublicKey);
        v.push(Scope::WritePublicKey);
        v.push(Scope::ReadPublicKey);
        v.push(Scope::AdminOrgHook);
        v.push(Scope::Gist);
        v.push(Scope::Notifications);
        v.push(Scope::User);
        v.push(Scope::ReadUser);
        v.push(Scope::UserEmail);
        v.push(Scope::UserFollow);
        v.push(Scope::DeleteRepo);
        v.push(Scope::WriteDiscussion);
        v.push(Scope::ReadDiscussion);
        v.push(Scope::WritePackages);
        v.push(Scope::ReadPackages);
        v.push(Scope::DeletePackages);
        v.push(Scope::AdminGpgKey);
        v.push(Scope::WriteGpgKey);
        v.push(Scope::ReadGpgKey);
        v.push(Scope::Workflow);
        proof {
            assert(v@ =~= Scope::catalog_spec());
        }
        v
    }

    /// Which catalog entries the selection prompt pre-selects: exactly the
    /// `repo` scope.
    pub fn default_marks() -> (r: Vec<bool>)
        ensures
            r@.len() == Scope::catalog_spec().len(),
            forall|i: int| 0 <= i < r@.len() ==> r@[i] == (Scope::catalog_spec()[i] is Repo),
    {
        let all = Scope::all();
        let mut v: Vec<bool> = Vec::new();
        let mut k: usize = 0;
        while k < all.len()
            invariant
                k <= all.len(),
                all@ == Scope::catalog_spec(),
                v@.len() == k as int,
                forall|i: int| 0 <= i < k ==> v@[i] == (Scope::catalog_spec()[i] is Repo),
            decreases all.len() - k,
        {
            v.push(all[k] == Scope::Repo);
            k += 1;
        }
        v
    }

    /// Map selection indices from the prompt into scopes, in the order the
    /// user chose them.
    pub fn scopes_from_indices(indices: &Vec<usize>) -> (r: Vec<Scope>)
        requires
            forall|i: int| 0 <= i < indices@.len() ==> indices@[i] < Scope::catalog_spec().len(),
        ensures
            r@ == indices@.map_values(|j: usize| Scope::catalog_spec()[j as int]),
    {
        let all = Scope::all();
        let mut v: Vec<Scope> = Vec::new();
        let mut k: usize = 0;
        while k < indices.len()
            invariant
                k <= indices@.len(),
                all@ == Scope::catalog_spec(),
                forall|i: int| 0 <= i < indices@.len() ==> indices@[i] < Scope::catalog_spec().len(),
                v@ == indices@.take(k as int).map_values(|j: usize| Scope::catalog_spec()[j as int]),
            decreases indices@.len() - k,
        {
            let j = indices[k];
            v.push(all[j]);
            proof {
                assert(indices@.take(k + 1 as int).drop_last() =~= indices@.take(k as int));
                assert(v@ =~= indices@.take(k + 1 as int).map_values(
                    |j: usize| Scope::catalog_spec()[j as int],
                ));
            }
            k += 1;
        }
        proof {
            assert(indices@.take(indices@.len() as int) =~= indices@);
        }
        v
    }
}

/// Law: serialization round-trips. Parsing the wire-format name of any scope
/// yields that same scope back.
pub proof fn lemma_scope_round_trip(s: Scope)
    ensures
        Scope::parse_spec(s.wire_spec()) == Some(s),
{
    reveal_strlit("repo");
    reveal_strlit("repo:status");
    reveal_strlit("repo_deployment");
    reveal_strlit("public_repo");
    reveal_strlit("repo:invite");
    reveal_strlit("security_events");
    reveal_strlit("admin:repo_hook");
    reveal_strlit("write:repo_hook");
    reveal_strlit("read:repo_hook");
    reveal_strlit("admin:org");
    reveal_strlit("write:org");
    reveal_strlit("read:org");
    reveal_strlit("admin:public_key");
    reveal_strlit("write:public_key");
    reveal_strlit("read:public_key");
    reveal_strlit("admin:org_hook");
    reveal_strlit("gist");
    reveal_strlit("notifications");
    reveal_strlit("user");
    reveal_strlit("read:user");
    reveal_strlit("user:email");
    reveal_strlit("user:follow");
    reveal_strlit("delete_repo");
    reveal_strlit("write:discussion");
    reveal_strlit("read:discussion");
    reveal_strlit("write:packages");
    reveal_strlit("read:packages");
    reveal_strlit("delete:packages");
    reveal_strlit("admin:gpg_key");
    reveal_strlit("write:gpg_key");
    reveal_strlit("read:gpg_key");
    reveal_strlit("workflow");
    // The wire names are pairwise distinct. Names of different lengths are
    // told apart by their lengths; names of equal length by a character at
    // which they differ.
    assert("repo"@.len() == 4);
    assert("repo:status"@.len() == 11);
    assert("repo_deployment"@.len() == 15);
    assert("public_repo"@.len() == 11);
    assert("repo:invite"@.len() == 11);
    assert("security_events"@.len() == 15);
    assert("admin:repo_hook"@.len() == 15);
    assert("write:repo_hook"@.len() == 15);
    assert("read:repo_hook"@.len() == 14);
    assert("admin:org"@.len() == 9);
    assert("write:org"@.len() == 9);
    assert("read:org"@.len() == 8);
    assert("admin:public_key"@.len() == 16);
    assert("write:public_key"@.len() == 16);
    assert("read:public_key"@.len() == 15);
    assert("admin:org_hook"@.len() == 14);
    assert("gist"@.len() == 4);
    assert("notifications"@.len() == 13);
    assert("user"@.len() == 4);
    assert("read:user"@.len() == 9);
    assert("user:email"@.len() == 10);
    assert("user:follow"@.len() == 11);
    assert("delete_repo"@.len() == 11);
    assert("write:discussion"@.len() == 16);
    assert("read:discussion"@.len() == 15);
    assert("write:packages"@.len() == 14);
    assert("read:packages"@.len() == 13);
    assert("delete:packages"@.len() == 15);
    assert("admin:gpg_key"@.len() == 13);
    assert("write:gpg_key"@.len() == 13);
    assert("read:gpg_key"@.len() == 12);
    assert("workflow"@.len() == 8);
    assert("repo"@[0] == 'r');
    assert("gist"@[0] == 'g');
    assert("user"@[0] == 'u');
    assert("read:org"@[0] == 'r');
    assert("workflow"@[0] == 'w');
    assert("admin:org"@[0] == 'a');
    assert("write:org"@[0] == 'w');
    assert("read:user"@[0] == 'r');
    assert("repo:status"@[0] == 'r');
    assert("public_repo"@[0] == 'p');
    assert("repo:invite"@[0] == 'r');
    assert("user:follow"@[0] == 'u');
    assert("delete_repo"@[0] == 'd');
    assert("repo:status"@[5] == 's');
    assert("repo:invite"@[5] == 'i');
    assert("notifications"@[0] == 'n');
    assert("read:packages"@[0] == 'r');
    assert("admin:gpg_key"@[0] == 'a');
    assert("write:gpg_key"@[0] == 'w');
    assert("read:repo_hook"@[0] == 'r');
    assert("admin:org_hook"@[0] == 'a');
    assert("write:packages"@[0] == 'w');
    assert("repo_deployment"@[0] == 'r');
    assert("security_events"@[0] == 's');
    assert("admin:repo_hook"@[0] == 'a');
    assert("write:repo_hook"@[0] == 'w');
    assert("read:public_key"@[0] == 'r');
    assert("read:discussion"@[0] == 'r');
    assert("delete:packages"@[0] == 'd');
    assert("repo_deployment"@[2] == 'p');
    assert("read:public_key"@[2] == 'a');
    assert("read:discussion"@[2] == 'a');
    assert("read:public_key"@[5] == 'p');
    assert("read:discussion"@[5] == 'd');
    assert("admin:public_key"@[0] == 'a');
    assert("write:public_key"@[0] == 'w');
    assert("write:discussion"@[0] == 'w');
    assert("write:public_key"@[6] == 'p');
    assert("write:discussion"@[6] == 'd');
    match s {
        Scope::Repo => assert(Scope::parse_spec(s.wire_spec()) == Some(Scope::Repo)),
        Scope::RepoStatus => assert(Scope::parse_spec(s.wire_spec()) == Some(Scope::RepoStatus)),
        Scope::RepoDeployment => assert(Scope::parse_spec(s.wire_spec()) == Some(
            Scope::RepoDeployment,
        )),
        Scope::PublicRepo => assert(Scope::parse_spec(s.wire_spec()) == Some(Scope::PublicRepo)),
        Scope::RepoInvite => assert(Scope::parse_spec(s.wire_spec()) == Some(Scope::RepoInvite)),
        Scope::SecurityEvents => assert(Scope::parse_spec(s.wire_spec()) == Some(
            Scope::SecurityEvents,
        )),
        Scope::AdminRepoHook => assert(Scope::parse_spec(s.wire_spec()) == Some(
            Scope::AdminRepoHook,
        )),
        Scope::WriteRepoHook => assert(Scope::parse_spec(s.wire_spec()) == Some(
            Scope::WriteRepoHook,
        )),
        Scope::ReadRepoHook => assert(Scope::parse_spec(s.wire_spec()) == Some(
            Scope::ReadRepoHook,
        )),
        Scope::AdminOrg => assert(Scope::parse_spec(s.wire_spec()) == Some(Scope::AdminOrg)),
        Scope::WriteOrg => assert(Scope::parse_spec(s.wire_spec()) == Some(Scope::WriteOrg)),
        Scope::ReadOrg => assert(Scope::parse_spec(s.wire_spec()) == Some(Scope::ReadOrg)),
        Scope::AdminPublicKey => assert(Scope::parse_spec(s.wire_spec()) == Some(
            Scope::AdminPublicKey,
        )),
        Scope::WritePublicKey => assert(Scope::parse_spec(s.wire_spec()) == Some(
            Scope::WritePublicKey,
        )),
        Scope::ReadPublicKey => assert(Scope::parse_spec(s.wire_spec()) == Some(
            Scope::ReadPublicKey,
        )),
        Scope::AdminOrgHook => assert(Scope::parse_spec(s.wire_spec()) == Some(
            Scope::AdminOrgHook,
        )),
        Scope::Gist => assert(Scope::parse_spec(s.wire_spec()) == Some(Scope::Gist)),
        Scope::Notifications => assert(Scope::parse_spec(s.wire_spec()) == Some(
            Scope::Notifications,
        )),
        Scope::User => assert(Scope::parse_spec(s.wire_spec()) == Some(Scope::User)),
        Scope::ReadUser => assert(Scope::parse_spec(s.wire_spec()) == Some(Scope::ReadUser)),
        Scope::UserEmail => assert(Scope::parse_spec(s.wire_spec()) == Some(Scope::UserEmail)),
        Scope::UserFollow => assert(Scope::parse_spec(s.wire_spec()) == Some(Scope::UserFollow)),
        Scope::DeleteRepo => assert(Scope::parse_spec(s.wire_spec()) == Some(Scope::DeleteRepo)),
        Scope::WriteDiscussion => assert(Scope::parse_spec(s.wire_spec()) == Some(
            Scope::WriteDiscussion,
        )),
        Scope::ReadDiscussion => assert(Scope::parse_spec(s.wire_spec()) == Some(
            Scope::ReadDiscussion,
        )),
        Scope::WritePackages => assert(Scope::parse_spec(s.wire_spec()) == Some(
            Scope::WritePackages,
        )),
        Scope::ReadPackages => assert(Scope::parse_spec(s.wire_spec()) == Some(
            Scope::ReadPackages,
        )),
        Scope::DeletePackages => assert(Scope::parse_spec(s.wire_spec()) == Some(
            Scope::DeletePackages,
        )),
        Scope::AdminGpgKey => assert(Scope::parse_spec(s.wire_spec()) == Some(Scope::AdminGpgKey)),
        Scope::WriteGpgKey => assert(Scope::parse_spec(s.wire_spec()) == Some(Scope::WriteGpgKey)),
        Scope::ReadGpgKey => assert(Scope::parse_spec(s.wire_spec()) == Some(Scope::ReadGpgKey)),
        Scope::Workflow => assert(Scope::parse_spec(s.wire_spec()) == Some(Scope::Workflow)),
    }
}

/// Law: serialization is injective — two scopes with the same wire-format
/// name are the same scope.
pub proof fn lemma_wire_injective(a: Scope, b: Scope)
    requires
        a.wire_spec() == b.wire_spec(),
    ensures
        a == b,
{
    lemma_scope_round_trip(a);
    lemma_scope_round_trip(b);
}

} // verus!
