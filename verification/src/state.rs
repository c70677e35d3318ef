//! Persistent bot state: the target revision, the admin list, and the
//! argument and environment sets handed to each pipeline run.
//!
//! The argument sets are insertion-ordered and deduplicated; the
//! environment is a list of key–value pairs with unique keys; the admin
//! list holds each account once.  The runtime persists this record and
//! performs the remote checks revision resolution needs; every change to
//! the values themselves is decided and verified here.

use vstd::prelude::*;
use linked_hash_set::LinkedHashSet;
use crate::command::views_of;
use crate::ordered_set::{elems, set_clear, set_insert, set_new, set_remove, set_to_vec};

verus! {

/// The revision the supervised build targets: exactly one of a branch name
/// or a commit hash.  Switching forms goes through the resolution procedure
/// (`State::set_rev`), never through the supervisor itself.
#[derive(Debug, PartialEq, Eq)]
pub enum Rev {
    Branch(String),
    Commit(String),
}

impl Clone for Rev {
    fn clone(&self) -> (r: Self)
        ensures
            r == self,
    {
        match self {
            Rev::Branch(b) => Rev::Branch(b.clone()),
            Rev::Commit(c) => Rev::Commit(c.clone()),
        }
    }
}

impl Rev {
    /// The bare ref name, independent of which form is active.
    pub open spec fn name_view(self) -> Seq<char> {
        match self {
            Rev::Branch(b) => b@,
            Rev::Commit(c) => c@,
        }
    }

    /// The ref name as handed to the version-control commands.
    pub fn name(&self) -> (r: String)
        ensures
            r@ == self.name_view(),
    {
        match self {
            Rev::Branch(b) => b.clone(),
            Rev::Commit(c) => c.clone(),
        }
    }
}

/// An ordered set after adding one value: the value moves to or is
/// appended at the end of the order; the other items keep theirs.
pub open spec fn inserted<A>(s: Seq<A>, v: A) -> Seq<A> {
    s.remove_value(v).push(v)
}

/// An ordered set after adding the given values, first to last.
pub open spec fn inserted_all<A>(s: Seq<A>, items: Seq<A>) -> Seq<A>
    decreases items.len(),
{
    if items.len() == 0 {
        s
    } else {
        inserted(inserted_all(s, items.drop_last()), items.last())
    }
}

/// A set kept in first-seen order after adding one value: already-present
/// values stay where they are.
pub open spec fn added_if_absent<A>(s: Seq<A>, v: A) -> Seq<A> {
    if s.contains(v) {
        s
    } else {
        s.push(v)
    }
}

/// A set kept in first-seen order after adding the given values.
pub open spec fn added_all_if_absent<A>(s: Seq<A>, items: Seq<A>) -> Seq<A>
    decreases items.len(),
{
    if items.len() == 0 {
        s
    } else {
        added_if_absent(added_all_if_absent(s, items.drop_last()), items.last())
    }
}

/// The keys of an environment list.
pub open spec fn env_keys(m: Seq<(Seq<char>, Seq<char>)>) -> Seq<Seq<char>> {
    m.map_values(|p: (Seq<char>, Seq<char>)| p.0)
}

/// The environment without its binding of `k`; with unique keys the first
/// binding found is the only one.
pub open spec fn env_without(
    m: Seq<(Seq<char>, Seq<char>)>,
    k: Seq<char>,
) -> Seq<(Seq<char>, Seq<char>)> {
    match env_keys(m).index_of_first(k) {
        Some(i) => m.remove(i),
        None => m,
    }
}

/// The environment after binding `k` to `v`: any previous binding of `k`
/// is dropped and the new pair appended.
pub open spec fn env_bound(
    m: Seq<(Seq<char>, Seq<char>)>,
    k: Seq<char>,
    v: Seq<char>,
) -> Seq<(Seq<char>, Seq<char>)> {
    env_without(m, k).push((k, v))
}

/// The environment after binding the given pairs, first to last.
pub open spec fn env_bound_all(
    m: Seq<(Seq<char>, Seq<char>)>,
    pairs: Seq<(Seq<char>, Seq<char>)>,
) -> Seq<(Seq<char>, Seq<char>)>
    decreases pairs.len(),
{
    if pairs.len() == 0 {
        m
    } else {
        env_bound(env_bound_all(m, pairs.drop_last()), pairs.last().0, pairs.last().1)
    }
}

/// Removing a value from a distinct sequence leaves a distinct sequence
/// holding everything but that value.
pub proof fn lemma_remove_value_distinct<A>(s: Seq<A>, v: A)
    requires
        s.no_duplicates(),
    ensures
        s.remove_value(v).no_duplicates(),
        !s.remove_value(v).contains(v),
        forall|x: A| #[trigger] s.remove_value(v).contains(x) <==> (s.contains(x) && x != v),
{
    s.index_of_first_ensures(v);
    if s.contains(v) {
        let i = s.index_of_first(v).unwrap();
        s.remove_ensures(i);
        let r = s.remove(i);
        assert forall|x: A| #[trigger] r.contains(x) implies (s.contains(x) && x != v) by {
            let j = choose|j: int| 0 <= j < r.len() && r[j] == x;
            if j < i {
                assert(s[j] == x);
            } else {
                assert(s[j + 1] == x);
            }
        }
        assert forall|x: A| s.contains(x) && x != v implies #[trigger] r.contains(x) by {
            let j = choose|j: int| 0 <= j < s.len() && s[j] == x;
            if j < i {
                assert(r[j] == x);
            } else {
                assert(j != i);
                assert(r[j - 1] == x);
            }
        }
    }
}

/// Appending a fresh value to a distinct sequence leaves it distinct; the
/// members afterwards are the old members plus the value.
pub proof fn lemma_insert_end_distinct<A>(s: Seq<A>, v: A)
    requires
        s.no_duplicates(),
    ensures
        inserted(s, v).no_duplicates(),
        forall|x: A| #[trigger] inserted(s, v).contains(x) <==> (s.contains(x) || x == v),
{
    lemma_remove_value_distinct(s, v);
    let r = s.remove_value(v);
    let t = r.push(v);
    assert forall|x: A| #[trigger] t.contains(x) implies (s.contains(x) || x == v) by {
        let j = choose|j: int| 0 <= j < t.len() && t[j] == x;
        if j < r.len() {
            assert(r.contains(x));
        }
    }
    assert forall|x: A| s.contains(x) || x == v implies #[trigger] t.contains(x) by {
        if x == v {
            assert(t[t.len() - 1] == x);
        } else {
            assert(r.contains(x));
            let j = choose|j: int| 0 <= j < r.len() && r[j] == x;
            assert(t[j] == x);
        }
    }
}

/// The pair views of an environment list after removing one pair are the
/// pair views with that position removed.
proof fn lemma_pair_views_remove(envs: Seq<(String, String)>, i: int)
    requires
        0 <= i < envs.len(),
    ensures
        envs.remove(i).map_values(|p: (String, String)| (p.0@, p.1@)) == envs.map_values(
            |p: (String, String)| (p.0@, p.1@),
        ).remove(i),
{
    envs.remove_ensures(i);
    envs.map_values(|p: (String, String)| (p.0@, p.1@)).remove_ensures(i);
    assert(envs.remove(i).map_values(|p: (String, String)| (p.0@, p.1@)) =~= envs.map_values(
        |p: (String, String)| (p.0@, p.1@),
    ).remove(i));
}

/// Whether the list holds the given account.
fn contains_id(v: &Vec<u64>, id: u64) -> (r: bool)
    ensures
        r == v@.contains(id),
{
    let mut i: usize = 0;
    while i < v.len()
        invariant
            i <= v@.len(),
            forall|j: int| 0 <= j < i ==> v@[j] != id,
        decreases v@.len() - i,
    {
        if v[i] == id {
            proof {
                assert(v@[i as int] == id);
            }
            return true;
        }
        i += 1;
    }
    proof {
        assert(!v@.contains(id));
    }
    false
}

/// Bot state which is not edited manually: the revision to compile, the
/// admins allowed to control the server, and the argument and environment
/// sets passed to each run.
pub struct State {
    rev: Rev,
    admins: Vec<u64>,
    args: LinkedHashSet<String>,
    cargo: LinkedHashSet<String>,
    envs: Vec<(String, String)>,
}

impl State {
    /// The revision to compile.
    pub closed spec fn rev_view(self) -> Rev {
        self.rev
    }

    /// The admin accounts, each once.
    pub closed spec fn admins_view(self) -> Seq<u64> {
        self.admins@
    }

    /// The game-server arguments, in insertion order.
    pub closed spec fn args_view(self) -> Seq<Seq<char>> {
        elems(self.args)
    }

    /// The build-tool arguments, in insertion order.
    pub closed spec fn cargo_view(self) -> Seq<Seq<char>> {
        elems(self.cargo)
    }

    /// The environment passed to the game server.
    pub closed spec fn envs_view(self) -> Seq<(Seq<char>, Seq<char>)> {
        self.envs@.map_values(|p: (String, String)| (p.0@, p.1@))
    }

    /// Every collection is duplicate-free: the argument sets hold each
    /// argument once, the environment binds each key once, the admin list
    /// holds each account once.
    pub open spec fn wf(self) -> bool {
        &&& self.admins_view().no_duplicates()
        &&& self.args_view().no_duplicates()
        &&& self.cargo_view().no_duplicates()
        &&& env_keys(self.envs_view()).no_duplicates()
    }

    /// `self` and `other` agree on everything but the game-server
    /// arguments.
    pub open spec fn agrees_except_args(self, other: State) -> bool {
        &&& self.rev_view() == other.rev_view()
        &&& self.admins_view() == other.admins_view()
        &&& self.cargo_view() == other.cargo_view()
        &&& self.envs_view() == other.envs_view()
    }

    /// `self` and `other` agree on everything but the build-tool
    /// arguments.
    pub open spec fn agrees_except_cargo(self, other: State) -> bool {
        &&& self.rev_view() == other.rev_view()
        &&& self.admins_view() == other.admins_view()
        &&& self.args_view() == other.args_view()
        &&& self.envs_view() == other.envs_view()
    }

    /// `self` and `other` agree on everything but the environment.
    pub open spec fn agrees_except_envs(self, other: State) -> bool {
        &&& self.rev_view() == other.rev_view()
        &&& self.admins_view() == other.admins_view()
        &&& self.args_view() == other.args_view()
        &&& self.cargo_view() == other.cargo_view()
    }

    /// `self` and `other` agree on everything but the admin list.
    pub open spec fn agrees_except_admins(self, other: State) -> bool {
        &&& self.rev_view() == other.rev_view()
        &&& self.args_view() == other.args_view()
        &&& self.cargo_view() == other.cargo_view()
        &&& self.envs_view() == other.envs_view()
    }

    /// `self` and `other` agree on everything but the revision.
    pub open spec fn agrees_except_rev(self, other: State) -> bool {
        &&& self.admins_view() == other.admins_view()
        &&& self.args_view() == other.args_view()
        &&& self.cargo_view() == other.cargo_view()
        &&& self.envs_view() == other.envs_view()
    }

    /// The revision to compile.
    pub fn rev(&self) -> (r: &Rev)
        ensures
            *r == self.rev_view(),
    {
        &self.rev
    }

    /// The admin accounts.
    pub fn admins(&self) -> (r: &Vec<u64>)
        ensures
            r@ == self.admins_view(),
    {
        &self.admins
    }

    /// The game-server arguments, in insertion order.
    pub fn args(&self) -> (r: Vec<String>)
        ensures
            views_of(r@) == self.args_view(),
    {
        set_to_vec(&self.args)
    }

    /// The build-tool arguments, in insertion order.
    pub fn cargo_args(&self) -> (r: Vec<String>)
        ensures
            views_of(r@) == self.cargo_view(),
    {
        set_to_vec(&self.cargo)
    }

    /// The environment passed to the game server.
    pub fn envs(&self) -> (r: &Vec<(String, String)>)
        ensures
            r@.map_values(|p: (String, String)| (p.0@, p.1@)) == self.envs_view(),
    {
        &self.envs
    }

    /// Whether the given account may control the server: it is in the
    /// admin list or owns the bot.
    pub fn is_admin(&self, owner: u64, id: u64) -> (r: bool)
        ensures
            r == (self.admins_view().contains(id) || owner == id),
    {
        contains_id(&self.admins, id) || owner == id
    }

    /// The resolution decision for a requested revision, given what the
    /// remote checks found: an existing branch wins; failing that an
    /// existing commit; otherwise the request is rejected and the revision
    /// stays as it was.
    pub fn set_rev(&mut self, name: &str, branch_exists: bool, commit_exists: bool) -> (accepted:
        bool)
        requires
            old(self).wf(),
        ensures
            final(self).wf(),
            old(self).agrees_except_rev(*final(self)),
            accepted == (branch_exists || commit_exists),
            branch_exists ==> (final(self).rev_view() matches Rev::Branch(b) && b@ == name@),
            !branch_exists && commit_exists ==> (final(self).rev_view() matches Rev::Commit(c)
                && c@ == name@),
            !accepted ==> final(self).rev_view() == old(self).rev_view(),
    {
        if branch_exists {
            self.rev = Rev::Branch(name.to_owned());
            true
        } else if commit_exists {
            self.rev = Rev::Commit(name.to_owned());
            true
        } else {
            false
        }
    }

    /// Adds one game-server argument; a repeated argument moves to the end
    /// of the order.
    pub fn add_arg(&mut self, arg: &str)
        requires
            old(self).wf(),
        ensures
            final(self).wf(),
            old(self).agrees_except_args(*final(self)),
            final(self).args_view() == inserted(old(self).args_view(), arg@),
    {
        set_insert(&mut self.args, arg.to_owned());
        proof {
            lemma_insert_end_distinct(old(self).args_view(), arg@);
        }
    }

    /// Adds several game-server arguments, first to last.
    pub fn add_args(&mut self, args: Vec<String>)
        requires
            old(self).wf(),
        ensures
            final(self).wf(),
            old(self).agrees_except_args(*final(self)),
            final(self).args_view() == inserted_all(old(self).args_view(), views_of(args@)),
    {
        let ghost items = views_of(args@);
        let mut i: usize = 0;
        while i < args.len()
            invariant
                i <= args@.len(),
                self.wf(),
                old(self).agrees_except_args(*self),
                items == views_of(args@),
                self.args_view() == inserted_all(old(self).args_view(), items.subrange(0, i as int)),
            decreases args@.len() - i,
        {
            self.add_arg(args[i].as_str());
            proof {
                assert(items.subrange(0, i + 1 as int).drop_last() =~= items.subrange(0, i as int));
                assert(items.subrange(0, i + 1 as int).last() == args@[i as int]@);
            }
            i += 1;
        }
        proof {
            assert(items.subrange(0, items.len() as int) =~= items);
        }
    }

    /// Removes one game-server argument; the order of the rest is kept.
    pub fn remove_arg(&mut self, arg: &str)
        requires
            old(self).wf(),
        ensures
            final(self).wf(),
            old(self).agrees_except_args(*final(self)),
            final(self).args_view() == old(self).args_view().remove_value(arg@),
    {
        set_remove(&mut self.args, arg);
        proof {
            lemma_remove_value_distinct(old(self).args_view(), arg@);
        }
    }

    /// Resets the game-server arguments to the default: just the
    /// basic-server flag.
    pub fn reset_args(&mut self)
        requires
            old(self).wf(),
        ensures
            final(self).wf(),
            old(self).agrees_except_args(*final(self)),
            final(self).args_view() == seq!["-b"@],
    {
        set_clear(&mut self.args);
        set_insert(&mut self.args, "-b".to_owned());
        proof {
            Seq::<Seq<char>>::empty().index_of_first_ensures("-b"@);
            assert(self.args_view() =~= seq!["-b"@]);
        }
    }

    /// Adds one build-tool argument; a repeated argument moves to the end
    /// of the order.
    pub fn add_cargo_arg(&mut self, arg: &str)
        requires
            old(self).wf(),
        ensures
            final(self).wf(),
            old(self).agrees_except_cargo(*final(self)),
            final(self).cargo_view() == inserted(old(self).cargo_view(), arg@),
    {
        set_insert(&mut self.cargo, arg.to_owned());
        proof {
            lemma_insert_end_distinct(old(self).cargo_view(), arg@);
        }
    }

    /// Adds several build-tool arguments, first to last.
    pub fn add_cargo_args(&mut self, args: Vec<String>)
        requires
            old(self).wf(),
        ensures
            final(self).wf(),
            old(self).agrees_except_cargo(*final(self)),
            final(self).cargo_view() == inserted_all(old(self).cargo_view(), views_of(args@)),
    {
        let ghost items = views_of(args@);
        let mut i: usize = 0;
        while i < args.len()
            invariant
                i <= args@.len(),
                self.wf(),
                old(self).agrees_except_cargo(*self),
                items == views_of(args@),
                self.cargo_view() == inserted_all(
                    old(self).cargo_view(),
                    items.subrange(0, i as int),
                ),
            decreases args@.len() - i,
        {
            self.add_cargo_arg(args[i].as_str());
            proof {
                assert(items.subrange(0, i + 1 as int).drop_last() =~= items.subrange(0, i as int));
                assert(items.subrange(0, i + 1 as int).last() == args@[i as int]@);
            }
            i += 1;
        }
        proof {
            assert(items.subrange(0, items.len() as int) =~= items);
        }
    }

    /// Removes one build-tool argument; the order of the rest is kept.
    pub fn remove_cargo_arg(&mut self, arg: &str)
        requires
            old(self).wf(),
        ensures
            final(self).wf(),
            old(self).agrees_except_cargo(*final(self)),
            final(self).cargo_view() == old(self).cargo_view().remove_value(arg@),
    {
        set_remove(&mut self.cargo, arg);
        proof {
            lemma_remove_value_distinct(old(self).cargo_view(), arg@);
        }
    }

    /// Clears the build-tool arguments; there is no default to restore.
    pub fn clear_cargo_args(&mut self)
        requires
            old(self).wf(),
        ensures
            final(self).wf(),
            old(self).agrees_except_cargo(*final(self)),
            final(self).cargo_view() == Seq::<Seq<char>>::empty(),
    {
        set_clear(&mut self.cargo);
    }

    /// Binds one environment variable; a previous binding of the same name
    /// is dropped and the new pair appended.
    pub fn add_env(&mut self, name: &str, value: &str)
        requires
            old(self).wf(),
        ensures
            final(self).wf(),
            old(self).agrees_except_envs(*final(self)),
            final(self).envs_view() == env_bound(old(self).envs_view(), name@, value@),
    {
        let ghost m = old(self).envs_view();
        let ghost keys = env_keys(m);
        proof {
            keys.index_of_first_ensures(name@);
        }
        let idx = find_env_index(&self.envs, name);
        match idx {
            Some(i) => {
                proof {
                    assert(keys[i as int] == name@);
                    assert(keys.index_of_first(name@) == Some(i as int)) by {
                        let k = keys.index_of_first(name@).unwrap();
                        assert(keys[k] == name@);
                    }
                    lemma_pair_views_remove(old(self).envs@, i as int);
                }
                self.envs.remove(i);
            },
            None => {
                proof {
                    assert(!keys.contains(name@)) by {
                        if keys.contains(name@) {
                            let k = choose|k: int| 0 <= k < keys.len() && keys[k] == name@;
                            assert(old(self).envs@[k].0@ == name@);
                        }
                    }
                }
            },
        }
        let ghost removed = self.envs@;
        self.envs.push((name.to_owned(), value.to_owned()));
        proof {
            assert(self.envs_view() =~= env_without(m, name@).push((name@, value@)));
            lemma_env_keys_push(env_without(m, name@), (name@, value@));
            lemma_env_keys_of_without(m, name@);
            lemma_insert_end_distinct(keys, name@);
            assert(env_keys(self.envs_view()) =~= inserted(keys, name@));
        }
    }

    /// Unbinds one environment variable; the other bindings keep their
    /// order.
    pub fn remove_env(&mut self, name: &str)
        requires
            old(self).wf(),
        ensures
            final(self).wf(),
            old(self).agrees_except_envs(*final(self)),
            final(self).envs_view() == env_without(old(self).envs_view(), name@),
    {
        let ghost m = old(self).envs_view();
        let ghost keys = env_keys(m);
        proof {
            keys.index_of_first_ensures(name@);
        }
        let idx = find_env_index(&self.envs, name);
        match idx {
            Some(i) => {
                proof {
                    assert(keys[i as int] == name@);
                    assert(keys.index_of_first(name@) == Some(i as int)) by {
                        let k = keys.index_of_first(name@).unwrap();
                        assert(keys[k] == name@);
                    }
                    lemma_pair_views_remove(old(self).envs@, i as int);
                }
                self.envs.remove(i);
            },
            None => {
                proof {
                    assert(!keys.contains(name@)) by {
                        if keys.contains(name@) {
                            let k = choose|k: int| 0 <= k < keys.len() && keys[k] == name@;
                            assert(old(self).envs@[k].0@ == name@);
                        }
                    }
                }
            },
        }
        proof {
            lemma_env_keys_of_without(m, name@);
            lemma_remove_value_distinct(keys, name@);
            assert(env_keys(self.envs_view()) =~= keys.remove_value(name@));
        }
    }

    /// Resets the environment to the default: a backtrace request and the
    /// log filter the game server is usually run with.
    pub fn reset_envs(&mut self)
        requires
            old(self).wf(),
        ensures
            final(self).wf(),
            old(self).agrees_except_envs(*final(self)),
            final(self).envs_view() == seq![
                ("RUST_BACKTRACE"@, "1"@),
                (
                    "RUST_LOG"@,
                    "debug,uvth=error,rustls=error,tiny_http=warn,veloren_network=warn,dot_vox=warn"@,
                ),
            ],
    {
        self.envs.clear();
        self.envs.push(("RUST_BACKTRACE".to_owned(), "1".to_owned()));
        self.envs.push((
            "RUST_LOG".to_owned(),
            "debug,uvth=error,rustls=error,tiny_http=warn,veloren_network=warn,dot_vox=warn"
                .to_owned(),
        ));
        proof {
            assert("RUST_BACKTRACE"@ != "RUST_LOG"@) by {
                reveal_strlit("RUST_BACKTRACE");
                reveal_strlit("RUST_LOG");
                assert("RUST_BACKTRACE"@.len() == 14);
                assert("RUST_LOG"@.len() == 8);
            }
            assert(self.envs_view() =~= seq![
                ("RUST_BACKTRACE"@, "1"@),
                (
                    "RUST_LOG"@,
                    "debug,uvth=error,rustls=error,tiny_http=warn,veloren_network=warn,dot_vox=warn"@,
                ),
            ]);
            assert(env_keys(self.envs_view()) =~= seq!["RUST_BACKTRACE"@, "RUST_LOG"@]);
        }
    }

    /// Adds an admin account; an account already present stays where it
    /// is.
    pub fn add_admin(&mut self, id: u64)
        requires
            old(self).wf(),
        ensures
            final(self).wf(),
            old(self).agrees_except_admins(*final(self)),
            final(self).admins_view() == added_if_absent(old(self).admins_view(), id),
    {
        if !contains_id(&self.admins, id) {
            self.admins.push(id);
        }
    }

    /// Removes an admin account; the order of the rest is kept.
    pub fn remove_admin(&mut self, id: u64)
        requires
            old(self).wf(),
        ensures
            final(self).wf(),
            old(self).agrees_except_admins(*final(self)),
            final(self).admins_view() == old(self).admins_view().remove_value(id),
    {
        let ghost ids = old(self).admins_view();
        proof {
            ids.index_of_first_ensures(id);
        }
        let idx = find_id_index(&self.admins, id);
        match idx {
            Some(i) => {
                proof {
                    assert(ids[i as int] == id);
                    assert(ids.index_of_first(id) == Some(i as int)) by {
                        let k = ids.index_of_first(id).unwrap();
                        assert(ids[k] == id);
                    }
                    lemma_remove_value_distinct(ids, id);
                }
                self.admins.remove(i);
            },
            None => {
                proof {
                    assert(!ids.contains(id));
                }
            },
        }
    }
}

impl Default for State {
    /// The state before any configuration exists: the main branch, no
    /// admins, no arguments, and the default environment.
    fn default() -> (s: Self)
        ensures
            (s.rev_view() matches Rev::Branch(b) && b@ == "master"@),
            s.admins_view() == Seq::<u64>::empty(),
            s.args_view() == Seq::<Seq<char>>::empty(),
            s.cargo_view() == Seq::<Seq<char>>::empty(),
            s.envs_view() == seq![
                ("RUST_BACKTRACE"@, "1"@),
                (
                    "RUST_LOG"@,
                    "debug,uvth=error,rustls=error,tiny_http=warn,veloren_network=warn,dot_vox=warn"@,
                ),
            ],
            s.wf(),
    {
        let mut s = State {
            rev: Rev::Branch("master".to_owned()),
            admins: Vec::new(),
            args: set_new(),
            cargo: set_new(),
            envs: Vec::new(),
        };
        proof {
            assert(env_keys(s.envs_view()) =~= Seq::<Seq<char>>::empty());
            assert(s.wf());
        }
        s.reset_envs();
        s
    }
}

impl State {
    /// Rebuilds a state record from stored plain values, restoring each
    /// collection's uniqueness the way repeated single additions would.
    pub fn assemble(
        rev: Rev,
        admins: Vec<u64>,
        args: Vec<String>,
        cargo: Vec<String>,
        envs: Vec<(String, String)>,
    ) -> (s: State)
        ensures
            s.wf(),
            s.rev_view() == rev,
            s.admins_view() == added_all_if_absent(Seq::<u64>::empty(), admins@),
            s.args_view() == inserted_all(Seq::<Seq<char>>::empty(), views_of(args@)),
            s.cargo_view() == inserted_all(Seq::<Seq<char>>::empty(), views_of(cargo@)),
            s.envs_view() == env_bound_all(
                Seq::<(Seq<char>, Seq<char>)>::empty(),
                envs@.map_values(|p: (String, String)| (p.0@, p.1@)),
            ),
    {
        let ghost rev0 = rev;
        let mut s = State {
            rev,
            admins: Vec::new(),
            args: set_new(),
            cargo: set_new(),
            envs: Vec::new(),
        };
        proof {
            assert(env_keys(s.envs_view()) =~= Seq::<Seq<char>>::empty());
            assert(s.wf());
        }
        s.add_args(args);
        s.add_cargo_args(cargo);

        let mut i: usize = 0;
        while i < admins.len()
            invariant
                i <= admins@.len(),
                s.wf(),
                s.rev_view() == rev0,
                s.args_view() == inserted_all(Seq::<Seq<char>>::empty(), views_of(args@)),
                s.cargo_view() == inserted_all(Seq::<Seq<char>>::empty(), views_of(cargo@)),
                s.envs_view() == Seq::<(Seq<char>, Seq<char>)>::empty(),
                s.admins_view() == added_all_if_absent(
                    Seq::<u64>::empty(),
                    admins@.subrange(0, i as int),
                ),
            decreases admins@.len() - i,
        {
            s.add_admin(admins[i]);
            proof {
                assert(admins@.subrange(0, i + 1 as int).drop_last() =~= admins@.subrange(
                    0,
                    i as int,
                ));
            }
            i += 1;
        }
        proof {
            assert(admins@.subrange(0, admins@.len() as int) =~= admins@);
        }

        let ghost pairs = envs@.map_values(|p: (String, String)| (p.0@, p.1@));
        let mut j: usize = 0;
        while j < envs.len()
            invariant
                j <= envs@.len(),
                s.wf(),
                s.rev_view() == rev0,
                s.args_view() == inserted_all(Seq::<Seq<char>>::empty(), views_of(args@)),
                s.cargo_view() == inserted_all(Seq::<Seq<char>>::empty(), views_of(cargo@)),
                s.admins_view() == added_all_if_absent(Seq::<u64>::empty(), admins@),
                pairs == envs@.map_values(|p: (String, String)| (p.0@, p.1@)),
                s.envs_view() == env_bound_all(
                    Seq::<(Seq<char>, Seq<char>)>::empty(),
                    pairs.subrange(0, j as int),
                ),
            decreases envs@.len() - j,
        {
            let pair = &envs[j];
            s.add_env(pair.0.as_str(), pair.1.as_str());
            proof {
                assert(pairs.subrange(0, j + 1 as int).drop_last() =~= pairs.subrange(0, j as int));
                assert(pairs.subrange(0, j + 1 as int).last() == pairs[j as int]);
            }
            j += 1;
        }
        proof {
            assert(pairs.subrange(0, pairs.len() as int) =~= pairs);
        }
        s
    }
}

/// The first position of the given account in the list, if any, with
/// nothing matching before it.
fn find_id_index(v: &Vec<u64>, id: u64) -> (r: Option<usize>)
    ensures
        match r {
            Some(i) => i < v@.len() && v@[i as int] == id && forall|j: int|
                0 <= j < i ==> v@[j] != id,
            None => forall|j: int| 0 <= j < v@.len() ==> v@[j] != id,
        },
{
    let mut i: usize = 0;
    while i < v.len()
        invariant
            i <= v@.len(),
            forall|j: int| 0 <= j < i ==> v@[j] != id,
        decreases v@.len() - i,
    {
        if v[i] == id {
            return Some(i);
        }
        i += 1;
    }
    None
}

/// The first binding of `name` in the list, if any: its index, with
/// nothing matching before it.
fn find_env_index(envs: &Vec<(String, String)>, name: &str) -> (r: Option<usize>)
    ensures
        match r {
            Some(i) => i < envs@.len() && envs@[i as int].0@ == name@ && forall|j: int|
                0 <= j < i ==> envs@[j].0@ != name@,
            None => forall|j: int| 0 <= j < envs@.len() ==> envs@[j].0@ != name@,
        },
{
    let key: String = name.to_owned();
    let mut i: usize = 0;
    while i < envs.len()
        invariant
            i <= envs@.len(),
            key@ == name@,
            forall|j: int| 0 <= j < i ==> envs@[j].0@ != name@,
        decreases envs@.len() - i,
    {
        let pair = &envs[i];
        if pair.0 == key {
            return Some(i);
        }
        i += 1;
    }
    None
}

/// The keys of an environment list after appending a pair are the keys
/// with that pair's key appended.
proof fn lemma_env_keys_push(m: Seq<(Seq<char>, Seq<char>)>, p: (Seq<char>, Seq<char>))
    ensures
        env_keys(m.push(p)) == env_keys(m).push(p.0),
{
    assert(env_keys(m.push(p)) =~= env_keys(m).push(p.0));
}

/// Dropping the binding of `k` drops exactly `k` from the key list.
proof fn lemma_env_keys_of_without(m: Seq<(Seq<char>, Seq<char>)>, k: Seq<char>)
    ensures
        env_keys(env_without(m, k)) == env_keys(m).remove_value(k),
{
    env_keys(m).index_of_first_ensures(k);
    match env_keys(m).index_of_first(k) {
        Some(i) => {
            m.remove_ensures(i);
            env_keys(m).remove_ensures(i);
            assert(env_keys(m.remove(i)) =~= env_keys(m).remove(i));
        },
        None => {},
    }
}

} // verus!
