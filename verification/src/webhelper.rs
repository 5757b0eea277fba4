//! The helper process through which the client answers local requests.

use crate::windows_process::{lemma_matching_is_empty, matching, ProcessEntry, WindowsProcess};
use vstd::prelude::*;

verus! {

/// The file that the helper process runs.
pub const WEBHELPER_PROCESS: &'static str = "SpotifyWebHelper.exe";

/// The name of the helper's file holds no NUL character.
pub proof fn lemma_helper_name_has_no_nul()
    ensures
        !WEBHELPER_PROCESS@.contains('\0'),
{
    reveal_strlit("SpotifyWebHelper.exe");
    assert forall|i: int| 0 <= i < WEBHELPER_PROCESS@.len() implies WEBHELPER_PROCESS@[i]
        != '\0' by {
        let name = WEBHELPER_PROCESS@;
        assert(name.len() == 20);
        assert(name[0] == 'S' && name[1] == 'p' && name[2] == 'o' && name[3] == 't' && name[4] == 'i');
        assert(name[5] == 'f' && name[6] == 'y' && name[7] == 'W' && name[8] == 'e' && name[9] == 'b');
        assert(name[10] == 'H' && name[11] == 'e' && name[12] == 'l' && name[13] == 'p');
        assert(name[14] == 'e' && name[15] == 'r' && name[16] == '.' && name[17] == 'e');
        assert(name[18] == 'x' && name[19] == 'e');
    }
}

/// The `SpotifyWebHelper` struct.
pub struct SpotifyWebHelper;

/// Implements `SpotifyWebHelper`.
impl SpotifyWebHelper {
    /// The first process of the snapshot that runs the helper.
    pub fn grab_process(snapshot: &Vec<ProcessEntry>) -> (r: Option<WindowsProcess>)
        ensures
            r == if matching(snapshot@, WEBHELPER_PROCESS@).len() == 0 {
                None
            } else {
                Some(matching(snapshot@, WEBHELPER_PROCESS@)[0])
            },
    {
        proof {
            lemma_helper_name_has_no_nul();
        }
        WindowsProcess::find_by_name(snapshot, WEBHELPER_PROCESS)
    }

    /// Checks whether the process is active: whether an entry of the
    /// snapshot runs the helper.
    pub fn is_alive(snapshot: &Vec<ProcessEntry>) -> (r: bool)
        ensures
            r == exists|i: int|
                0 <= i < snapshot@.len() && (#[trigger] snapshot@[i]).exe_file@ == WEBHELPER_PROCESS@,
    {
        proof {
            lemma_matching_is_empty(snapshot@, WEBHELPER_PROCESS@);
        }
        SpotifyWebHelper::grab_process(snapshot).is_some()
    }
}

} // verus!
