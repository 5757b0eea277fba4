//! Finding processes by the name of their executable in a snapshot of the
//! running processes.

use vstd::prelude::*;

verus! {

/// One entry of a process snapshot: the process and the file it runs.
#[derive(Debug, PartialEq, Eq)]
pub struct ProcessEntry {
    /// The process identifier.
    pub process_id: u32,
    /// The name of the executable file.
    pub exe_file: String,
}

/// The `WindowsProcess` struct.
#[derive(Debug, Clone, Copy, PartialEq, Eq)]
pub struct WindowsProcess {
    /// The process identifier.
    pub process_id: u32,
}

/// The processes of `snapshot` that run the file `name`, in the order of the
/// snapshot.
pub open spec fn matching(snapshot: Seq<ProcessEntry>, name: Seq<char>) -> Seq<WindowsProcess>
    decreases snapshot.len(),
{
    if snapshot.len() == 0 {
        Seq::empty()
    } else {
        let earlier = matching(snapshot.drop_last(), name);
        if snapshot.last().exe_file@ == name {
            earlier.push(WindowsProcess { process_id: snapshot.last().process_id })
        } else {
            earlier
        }
    }
}

/// A process is found exactly where an entry of the snapshot carries the
/// name.
pub proof fn lemma_matching_is_empty(snapshot: Seq<ProcessEntry>, name: Seq<char>)
    ensures
        matching(snapshot, name).len() == 0 <==> forall|i: int|
            0 <= i < snapshot.len() ==> (#[trigger] snapshot[i]).exe_file@ != name,
    decreases snapshot.len(),
{
    if snapshot.len() > 0 {
        lemma_matching_is_empty(snapshot.drop_last(), name);
        if matching(snapshot, name).len() == 0 {
            assert forall|i: int| 0 <= i < snapshot.len() implies (#[trigger] snapshot[i]).exe_file@
                != name by {
                if i < snapshot.len() - 1 {
                    assert(snapshot.drop_last()[i] == snapshot[i]);
                }
            }
        } else if snapshot.last().exe_file@ != name {
            let i = choose|i: int|
                0 <= i < snapshot.drop_last().len() && (#[trigger] snapshot.drop_last()[i]).exe_file@
                    == name;
            assert(snapshot[i] == snapshot.drop_last()[i]);
        } else {
            assert(snapshot[snapshot.len() - 1] == snapshot.last());
        }
    }
}

/// Implements `WindowsProcess`.
impl WindowsProcess {
    /// Constructs a new `WindowsProcess`.
    fn new(process_id: u32) -> (r: WindowsProcess)
        ensures
            r == (WindowsProcess { process_id }),
    {
        WindowsProcess { process_id }
    }

    /// Finds the first process with the specified name. The name holds no
    /// NUL character: no file name can.
    pub fn find_by_name(snapshot: &Vec<ProcessEntry>, name: &str) -> (r: Option<WindowsProcess>)
        requires
            !name@.contains('\0'),
        ensures
            r == if matching(snapshot@, name@).len() == 0 {
                None
            } else {
                Some(matching(snapshot@, name@)[0])
            },
    {
        let processes = WindowsProcess::find_all_by_name(snapshot, name);
        if processes.len() == 0 {
            None
        } else {
            Some(processes[0])
        }
    }

    /// Finds all processes with the specified name. The name holds no NUL
    /// character: no file name can.
    pub fn find_all_by_name(snapshot: &Vec<ProcessEntry>, name: &str) -> (r: Vec<WindowsProcess>)
        requires
            !name@.contains('\0'),
        ensures
            r@ == matching(snapshot@, name@),
    {
        let dest_path = name.to_owned();
        let mut vec: Vec<WindowsProcess> = Vec::new();
        let mut i: usize = 0;
        while i < snapshot.len()
            invariant
                i <= snapshot.len(),
                dest_path@ == name@,
                vec@ == matching(snapshot@.take(i as int), name@),
            decreases snapshot.len() - i,
        {
            assert(snapshot@.take(i + 1).drop_last() == snapshot@.take(i as int));
            if snapshot[i].exe_file == dest_path {
                vec.push(WindowsProcess::new(snapshot[i].process_id));
            }
            i += 1;
        }
        assert(snapshot@.take(snapshot@.len() as int) == snapshot@);
        vec
    }
}

} // verus!
