//! Who may approve or reject: the direct allow-list together with the members
//! of the allow-listed groups, without duplicates.
use vstd::prelude::*;

verus! {

/// Every identifier named directly in `users` or listed as a member of one of
/// the expanded `groups`.
pub open spec fn resolved_ids(users: Seq<Seq<char>>, groups: Seq<Seq<Seq<char>>>) -> Set<Seq<char>> {
    Set::new(
        |id: Seq<char>|
            users.contains(id) || exists|g: int| 0 <= g < groups.len() && #[trigger] groups[g].contains(id),
    )
}

/// The policy for a single actor: an empty set lets anyone decide.
pub open spec fn admits(set: Set<Seq<char>>, id: Seq<char>) -> bool {
    set == Set::<Seq<char>>::empty() || set.contains(id)
}

/// The users allowed to decide, each held once. Built once before listening
/// starts and only read afterwards.
pub struct AuthorizedSet {
    ids: Vec<String>,
}

impl View for AuthorizedSet {
    type V = Set<Seq<char>>;

    closed spec fn view(&self) -> Set<Seq<char>> {
        Set::new(|id: Seq<char>| self.ids.deep_view().contains(id))
    }
}

/// Whether `id` is one of `ids`, compared by value.
fn contains_id(ids: &Vec<String>, id: &String) -> (r: bool)
    ensures
        r == ids.deep_view().contains(id@),
{
    let mut i: usize = 0;
    while i < ids.len()
        invariant
            i <= ids.len(),
            forall|j: int| 0 <= j < i ==> ids.deep_view()[j] != id@,
        decreases ids.len() - i,
    {
        if ids[i] == *id {
            assert(ids.deep_view()[i as int] == id@);
            return true;
        }
        i = i + 1;
    }
    false
}

impl AuthorizedSet {
    /// No identifier is held twice.
    pub closed spec fn wf(&self) -> bool {
        self.ids.deep_view().no_duplicates()
    }

    /// The number of distinct authorized users.
    pub fn len(&self) -> (r: usize)
        requires
            self.wf(),
        ensures
            r == self@.len(),
    {
        proof {
            let s = self.ids.deep_view();
            assert(self@ =~= s.to_set());
            s.unique_seq_to_set();
        }
        self.ids.len()
    }

    /// The authorized users, each once, in the order they were first named.
    pub fn members(&self) -> (r: Vec<String>)
        ensures
            r.deep_view().no_duplicates() == self.wf(),
            forall|id: Seq<char>| #[trigger] r.deep_view().contains(id) <==> self@.contains(id),
    {
        self.ids.clone()
    }
}

/// Adds `id` to `out` unless it is already there.
fn insert_unique(out: &mut Vec<String>, id: &String)
    requires
        old(out).deep_view().no_duplicates(),
    ensures
        final(out).deep_view().no_duplicates(),
        forall|x: Seq<char>|
            #[trigger] final(out).deep_view().contains(x) <==> (old(out).deep_view().contains(x)
                || x == id@),
{
    if !contains_id(out, id) {
        let ghost before = out.deep_view();
        out.push(id.clone());
        proof {
            let after = out.deep_view();
            assert(after =~= before.push(id@));
            assert forall|x: Seq<char>| after.contains(x) <==> (before.contains(x) || x == id@) by {
                if after.contains(x) {
                    let k = choose|k: int| 0 <= k < after.len() && after[k] == x;
                    if k < before.len() {
                        assert(before[k] == x);
                    }
                }
                if x == id@ {
                    assert(after[before.len() as int] == x);
                }
                if before.contains(x) {
                    let k = choose|k: int| 0 <= k < before.len() && before[k] == x;
                    assert(after[k] == x);
                }
            }
        }
    }
}

/// Resolves the authorized set from the direct allow-list `users` and the
/// members that the lookup of each allow-listed group returned, in order.
pub fn collect_authorized_users(users: &Vec<String>, group_members: &Vec<Vec<String>>) -> (r: AuthorizedSet)
    ensures
        r.wf(),
        r@ == resolved_ids(users.deep_view(), group_members.deep_view()),
        forall|id: Seq<char>| #[trigger] users.deep_view().contains(id) ==> r@.contains(id),
{
    let mut out: Vec<String> = Vec::new();
    let mut i: usize = 0;
    while i < users.len()
        invariant
            i <= users.len(),
            out.deep_view().no_duplicates(),
            forall|x: Seq<char>|
                #[trigger] out.deep_view().contains(x) <==> users.deep_view().take(i as int).contains(x),
        decreases users.len() - i,
    {
        insert_unique(&mut out, &users[i]);
        proof {
            let t = users.deep_view().take(i as int);
            let t2 = users.deep_view().take(i as int + 1);
            assert(t2 =~= t.push(users.deep_view()[i as int]));
            assert forall|x: Seq<char>| t2.contains(x) <==> (t.contains(x) || x == users.deep_view()[i as int]) by {
                if t2.contains(x) {
                    let k = choose|k: int| 0 <= k < t2.len() && t2[k] == x;
                    if k < t.len() {
                        assert(t[k] == x);
                    }
                }
                if t.contains(x) {
                    let k = choose|k: int| 0 <= k < t.len() && t[k] == x;
                    assert(t2[k] == x);
                }
                if x == users.deep_view()[i as int] {
                    assert(t2[i as int] == x);
                }
            }
        }
        i = i + 1;
    }
    assert(users.deep_view().take(users.len() as int) =~= users.deep_view());
    let mut g: usize = 0;
    while g < group_members.len()
        invariant
            g <= group_members.len(),
            out.deep_view().no_duplicates(),
            forall|x: Seq<char>|
                #[trigger] out.deep_view().contains(x) <==> (users.deep_view().contains(x)
                    || exists|h: int| 0 <= h < g && #[trigger] group_members.deep_view()[h].contains(x)),
        decreases group_members.len() - g,
    {
        let members = &group_members[g];
        assert(members.deep_view() == group_members.deep_view()[g as int]);
        let mut m: usize = 0;
        while m < members.len()
            invariant
                g < group_members.len(),
                members.deep_view() == group_members.deep_view()[g as int],
                m <= members.len(),
                out.deep_view().no_duplicates(),
                forall|x: Seq<char>|
                    #[trigger] out.deep_view().contains(x) <==> (users.deep_view().contains(x)
                        || (exists|h: int| 0 <= h < g && #[trigger] group_members.deep_view()[h].contains(x))
                        || members.deep_view().take(m as int).contains(x)),
            decreases members.len() - m,
        {
            insert_unique(&mut out, &members[m]);
            proof {
                let t = members.deep_view().take(m as int);
                let t2 = members.deep_view().take(m as int + 1);
                assert(t2 =~= t.push(members.deep_view()[m as int]));
                assert forall|x: Seq<char>| t2.contains(x) <==> (t.contains(x) || x == members.deep_view()[m as int]) by {
                    if t2.contains(x) {
                        let k = choose|k: int| 0 <= k < t2.len() && t2[k] == x;
                        if k < t.len() {
                            assert(t[k] == x);
                        }
                    }
                    if t.contains(x) {
                        let k = choose|k: int| 0 <= k < t.len() && t[k] == x;
                        assert(t2[k] == x);
                    }
                    if x == members.deep_view()[m as int] {
                        assert(t2[m as int] == x);
                    }
                }
            }
            m = m + 1;
        }
        proof {
            assert(members.deep_view().take(members.len() as int) =~= members.deep_view());
            assert forall|x: Seq<char>|
                #[trigger] out.deep_view().contains(x) <==> (users.deep_view().contains(x)
                    || exists|h: int| 0 <= h < g + 1 && #[trigger] group_members.deep_view()[h].contains(x)) by {
                if exists|h: int| 0 <= h < g + 1 && #[trigger] group_members.deep_view()[h].contains(x) {
                    let h = choose|h: int| 0 <= h < g + 1 && #[trigger] group_members.deep_view()[h].contains(x);
                    if h < g {
                        assert(exists|h: int| 0 <= h < g && #[trigger] group_members.deep_view()[h].contains(x));
                    }
                }
            }
        }
        g = g + 1;
    }
    let r = AuthorizedSet { ids: out };
    assert(r@ =~= resolved_ids(users.deep_view(), group_members.deep_view()));
    r
}

/// Whether `id` may decide: anyone when the set is empty, otherwise only a member.
pub fn is_authorized_user(id: &String, set: &AuthorizedSet) -> (r: bool)
    ensures
        r == admits(set@, id@),
{
    if set.ids.len() == 0 {
        assert(set@ =~= Set::<Seq<char>>::empty());
        return true;
    }
    assert(set@.contains(set.ids.deep_view()[0]));
    contains_id(&set.ids, id)
}

/// With no users and no groups allowed, the resolved set is empty, and an
/// empty set lets any actor decide.
pub proof fn lemma_empty_allow_lists_admit_anyone(id: Seq<char>)
    ensures
        resolved_ids(Seq::empty(), Seq::empty()) == Set::<Seq<char>>::empty(),
        admits(resolved_ids(Seq::empty(), Seq::empty()), id),
{
    assert(resolved_ids(Seq::empty(), Seq::empty()) =~= Set::<Seq<char>>::empty());
}

} // verus!
