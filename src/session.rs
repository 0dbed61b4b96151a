use crate::conn::{str_eq, DatasetConn};
use crate::router::CommandError;
use vstd::prelude::*;

verus! {

/// A dataset bound to a name.
#[derive(Clone, Debug)]
pub struct Dataset {
    pub name: String,
    pub conn: DatasetConn,
}

/// The bindings that a list of datasets makes; a later entry for a name
/// overrides an earlier one.
pub open spec fn bindings_of(s: Seq<Dataset>) -> Map<Seq<char>, DatasetConn>
    decreases s.len(),
{
    if s.len() == 0 {
        Map::empty()
    } else {
        bindings_of(s.drop_last()).insert(s.last().name@, s.last().conn)
    }
}

proof fn lemma_bound_iff_listed(s: Seq<Dataset>, k: Seq<char>)
    ensures
        bindings_of(s).dom().contains(k) <==> exists|i: int| 0 <= i < s.len() && s[i].name@ == k,
    decreases s.len(),
{
    if s.len() > 0 {
        lemma_bound_iff_listed(s.drop_last(), k);
        if bindings_of(s.drop_last()).dom().contains(k) {
            let i = choose|i: int| 0 <= i < s.drop_last().len() && s.drop_last()[i].name@ == k;
            assert(s[i].name@ == k);
        }
        if exists|i: int| 0 <= i < s.len() && s[i].name@ == k {
            let i = choose|i: int| 0 <= i < s.len() && s[i].name@ == k;
            if i < s.len() - 1 {
                assert(s.drop_last()[i].name@ == k);
            }
        }
    }
}

/// The catalog of registered datasets, keyed by unique name.
pub struct Session {
    entries: Vec<Dataset>,
}

impl View for Session {
    type V = Map<Seq<char>, DatasetConn>;

    closed spec fn view(&self) -> Map<Seq<char>, DatasetConn> {
        bindings_of(self.entries@)
    }
}

impl Session {
    pub fn new() -> (r: Self)
        ensures
            r@ == Map::<Seq<char>, DatasetConn>::empty(),
    {
        Session { entries: Vec::new() }
    }

    /// Whether a dataset is bound to `name`.
    pub fn contains(&self, name: &str) -> (r: bool)
        ensures
            r == self@.dom().contains(name@),
    {
        proof {
            lemma_bound_iff_listed(self.entries@, name@);
        }
        let mut i: usize = 0;
        while i < self.entries.len()
            invariant
                i <= self.entries@.len(),
                forall|j: int| 0 <= j < i ==> self.entries@[j].name@ != name@,
            decreases self.entries@.len() - i,
        {
            if str_eq(self.entries[i].name.as_str(), name) {
                proof {
                    lemma_bound_iff_listed(self.entries@, name@);
                }
                assert(self.entries@[i as int].name@ == name@);
                return true;
            }
            i = i + 1;
        }
        false
    }

    /// Binds `conn` to `name`; a name that is already bound keeps its binding
    /// and the call fails with `DuplicateName`.
    pub fn register(&mut self, name: String, conn: DatasetConn) -> (r: Result<(), CommandError>)
        ensures
            r is Err <==> old(self)@.dom().contains(name@),
            r matches Err(e) ==> e == CommandError::DuplicateName,
            r is Err ==> final(self)@ == old(self)@,
            r is Ok ==> final(self)@ == old(self)@.insert(name@, conn),
    {
        if self.contains(name.as_str()) {
            return Err(CommandError::DuplicateName);
        }
        let ghost before = self.entries@;
        let d = Dataset { name, conn };
        self.entries.push(d);
        assert(self.entries@.drop_last() =~= before);
        Ok(())
    }
}

} // verus!
