use vstd::prelude::*;
use std::collections::HashMap;

verus! {

broadcast use vstd::std_specs::hash::group_hash_axioms;

/// Attributes of a process that are taken not to change over its lifetime.
pub struct ProcessStaticInfo {
    pub name: String,
    /// The argument vector joined with single spaces.
    pub command: String,
    pub user: String,
}

/// What a `ProcessStaticInfo` holds.
pub struct StaticInfoView {
    pub name: Seq<char>,
    pub command: Seq<char>,
    pub user: Seq<char>,
}

impl View for ProcessStaticInfo {
    type V = StaticInfoView;

    open spec fn view(&self) -> StaticInfoView {
        StaticInfoView { name: self.name@, command: self.command@, user: self.user@ }
    }
}

impl ProcessStaticInfo {
    pub fn copy_info(&self) -> (r: ProcessStaticInfo)
        ensures
            r@ == self@,
    {
        ProcessStaticInfo {
            name: self.name.clone(),
            command: self.command.clone(),
            user: self.user.clone(),
        }
    }
}

/// The arguments joined with single spaces.
pub open spec fn join_spaced(args: Seq<Seq<char>>) -> Seq<char>
    decreases args.len(),
{
    if args.len() == 0 {
        Seq::empty()
    } else if args.len() == 1 {
        args[0]
    } else {
        join_spaced(args.drop_last()) + seq![' '] + args.last()
    }
}

pub open spec fn strings_view(v: Seq<String>) -> Seq<Seq<char>> {
    v.map_values(|s: String| s@)
}

/// The user shown for a user id; a process without one shows "-".
pub open spec fn user_label(user_id: Option<Seq<char>>) -> Seq<char> {
    match user_id {
        Some(u) => u,
        None => "-"@,
    }
}

pub open spec fn opt_string_view(s: Option<String>) -> Option<Seq<char>> {
    match s {
        Some(u) => Some(u@),
        None => None,
    }
}

/// Static attributes built from one observation of a process.
pub open spec fn observed_info(
    name: Seq<char>,
    argv: Seq<Seq<char>>,
    user_id: Option<Seq<char>>,
) -> StaticInfoView {
    StaticInfoView { name, command: join_spaced(argv), user: user_label(user_id) }
}

/// One lookup in the cache: an entry already present is returned and kept as
/// it is; otherwise the fresh observation is stored and returned.
pub open spec fn cache_step(
    m: Map<u32, StaticInfoView>,
    pid: u32,
    fresh: StaticInfoView,
) -> (Map<u32, StaticInfoView>, StaticInfoView) {
    if m.contains_key(pid) {
        (m, m[pid])
    } else {
        (m.insert(pid, fresh), fresh)
    }
}

/// The arguments joined with single spaces.
pub fn join_args(argv: &Vec<String>) -> (r: String)
    ensures
        r@ == join_spaced(strings_view(argv@)),
{
    let ghost args = strings_view(argv@);
    let mut r = String::new();
    let mut i: usize = 0;
    while i < argv.len()
        invariant
            i <= argv@.len(),
            args == strings_view(argv@),
            r@ == join_spaced(args.subrange(0, i as int)),
        decreases argv.len() - i,
    {
        let ghost prefix = args.subrange(0, i as int + 1);
        assert(prefix.drop_last() =~= args.subrange(0, i as int));
        assert(prefix.last() == argv@[i as int]@);
        if i > 0 {
            proof {
                reveal_strlit(" ");
            }
            r.append(" ");
        }
        r.append(argv[i].as_str());
        if i == 0 {
            assert(r@ =~= prefix[0]);
        } else {
            assert(r@ =~= join_spaced(prefix.drop_last()) + seq![' '] + prefix.last());
        }
        i = i + 1;
    }
    assert(args.subrange(0, i as int) =~= args);
    r
}

/// Durable map from process id to the attributes first observed for it.
/// Entries are never evicted, also after the process has exited.
pub struct StaticInfoCache {
    entries: HashMap<u32, ProcessStaticInfo>,
}

impl View for StaticInfoCache {
    type V = Map<u32, StaticInfoView>;

    closed spec fn view(&self) -> Map<u32, StaticInfoView> {
        self.entries@.map_values(|v: ProcessStaticInfo| v@)
    }
}

impl StaticInfoCache {
    pub fn new() -> (r: Self)
        ensures
            r@ == Map::<u32, StaticInfoView>::empty(),
    {
        let r = StaticInfoCache { entries: HashMap::new() };
        assert(r@ =~= Map::<u32, StaticInfoView>::empty());
        r
    }

    /// Static attributes of `pid`. On the first call for a pid they are built
    /// from the observation given and stored; later calls return the stored
    /// entry and ignore what is observed then.
    pub fn get_or_create(
        &mut self,
        pid: u32,
        name: &String,
        argv: &Vec<String>,
        user_id: Option<String>,
    ) -> (r: ProcessStaticInfo)
        ensures
            (final(self)@, r@) == cache_step(
                old(self)@,
                pid,
                observed_info(name@, strings_view(argv@), opt_string_view(user_id)),
            ),
    {
        match self.entries.get(&pid) {
            Some(info) => {
                return info.copy_info();
            },
            None => {},
        }
        let user = match user_id {
            Some(u) => u,
            None => String::from_str("-"),
        };
        let info = ProcessStaticInfo { name: name.clone(), command: join_args(argv), user };
        let stored = info.copy_info();
        self.entries.insert(pid, stored);
        assert(self@ =~= old(self)@.insert(pid, info@));
        info
    }
}

/// Once a pid has been looked up, later lookups of it return what the first
/// one returned and leave the cache as it was, whatever is observed then; a
/// pid seen for the first time gets the attributes observed then.
pub proof fn lemma_first_observation_kept(
    m: Map<u32, StaticInfoView>,
    pid: u32,
    first: StaticInfoView,
    second: StaticInfoView,
)
    ensures
        ({
            let (m1, r1) = cache_step(m, pid, first);
            let (m2, r2) = cache_step(m1, pid, second);
            &&& r2 == r1
            &&& m2 == m1
            &&& !m.contains_key(pid) ==> r1 == first
        }),
{
}

} // verus!
