//! The ledger of files that the agent has read or written.

use vstd::prelude::*;
use vstd::string::*;

verus! {

/// The set of file paths that the agent has touched at least once. Paths are
/// only ever added.
pub struct Resources {
    open_files: Vec<String>,
}

impl View for Resources {
    type V = Set<Seq<char>>;

    closed spec fn view(&self) -> Set<Seq<char>> {
        self.open_files.deep_view().to_set()
    }
}

impl Default for Resources {
    fn default() -> (resources: Resources)
        ensures
            resources@ == Set::<Seq<char>>::empty(),
    {
        let resources = Resources { open_files: Vec::new() };
        resources
    }
}

impl Resources {
    #[verifier::type_invariant]
    spec fn each_path_once(self) -> bool {
        self.open_files.deep_view().no_duplicates()
    }

    /// Whether `filename` is in the ledger.
    pub fn contains(&self, filename: &str) -> (found: bool)
        ensures
            found == self@.contains(filename@),
    {
        let wanted = filename.to_owned();
        let mut i: usize = 0;
        while i < self.open_files.len()
            invariant
                i <= self.open_files@.len(),
                wanted@ == filename@,
                forall|j: int| 0 <= j < i ==> self.open_files.deep_view()[j] != filename@,
            decreases self.open_files@.len() - i,
        {
            if self.open_files[i] == wanted {
                assert(self.open_files.deep_view()[i as int] == filename@);
                return true;
            }
            i += 1;
        }
        false
    }

    /// The number of paths in the ledger.
    pub fn len(&self) -> (n: usize)
        ensures
            n == self@.len(),
            self@.finite(),
    {
        proof {
            use_type_invariant(self);
            self.open_files.deep_view().unique_seq_to_set();
        }
        self.open_files.len()
    }

    /// Records that the agent has touched `filename`.
    pub fn add_file(&mut self, filename: &str)
        ensures
            final(self)@ == old(self)@.insert(filename@),
            old(self)@.subset_of(final(self)@),
    {
        proof {
            use_type_invariant(&*self);
        }
        if self.contains(filename) {
            return ;
        }
        let mut taken = Resources { open_files: Vec::new() };
        core::mem::swap(self, &mut taken);
        let Resources { mut open_files } = taken;
        let ghost before = open_files.deep_view();
        open_files.push(filename.to_owned());
        assert(open_files.deep_view() =~= before.push(filename@));
        proof {
            before.lemma_push_to_set_commute(filename@);
        }
        *self = Resources { open_files };
    }
}

/// Adding a path never removes one: every path that was in the ledger is still
/// in it afterwards, and so is the path that was added.
pub proof fn lemma_add_file_never_removes(files: Set<Seq<char>>, added: Seq<char>, path: Seq<char>)
    ensures
        files.contains(path) ==> files.insert(added).contains(path),
        files.insert(added).contains(added),
{
}

} // verus!
