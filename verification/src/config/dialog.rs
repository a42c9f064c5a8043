//! What the camera dialog shows for a stored camera, and what a stream test
//! is given.

use crate::ascii::str_eq;
use vstd::prelude::*;

verus! {

/// Whether `index` is the first entry of `dirs` after the leading one that
/// holds the directory `id`.
pub open spec fn is_first_entry_of(dirs: Seq<Option<i32>>, id: i32, index: int) -> bool {
    &&& 1 <= index < dirs.len()
    &&& dirs[index] == Some(id)
    &&& forall|j: int| 1 <= j < index ==> #[trigger] dirs[j] != Some(id)
}

/// Which entry of the directory list to select for a stream.
///
/// `dirs` is the list as shown: its first entry stands for no directory, the
/// others for one directory each. The entry to select is the first one of
/// the stream's directory; where the stream has no directory, or the list
/// does not hold it, the leading entry.
pub fn selected_dir(dirs: &[Option<i32>], stored: Option<i32>) -> (index: usize)
    ensures
        match stored {
            None => index == 0,
            Some(id) => if exists|i: int| 1 <= i < dirs.len() && #[trigger] dirs[i] == Some(id) {
                is_first_entry_of(dirs@, id, index as int)
            } else {
                index == 0
            },
        },
{
    let id = match stored {
        None => {
            return 0;
        },
        Some(id) => id,
    };
    let mut i: usize = 1;
    while i < dirs.len()
        invariant
            1 <= i,
            stored == Some(id),
            forall|j: int| 1 <= j < i && j < dirs.len() ==> #[trigger] dirs[j] != Some(id),
        decreases dirs.len() - i,
    {
        match dirs[i] {
            Some(d) => {
                if d == id {
                    assert(dirs[i as int] == Some(id));
                    return i;
                }
            },
            None => {},
        }
        i = i + 1;
    }
    0
}

/// The entries of the transport list, as stored: the default, TCP, UDP.
pub open spec fn transport_selection_spec(transport: Seq<char>) -> usize {
    if transport == "tcp"@ {
        1
    } else if transport == "udp"@ {
        2
    } else {
        0
    }
}

/// Which entry of the transport list to select for a stored transport: the
/// second for `"tcp"`, the third for `"udp"`, the first, the default, for
/// anything else.
pub fn transport_selection(transport: &str) -> (index: usize)
    ensures
        index == transport_selection_spec(transport@),
{
    if str_eq(transport, "tcp") {
        1
    } else if str_eq(transport, "udp") {
        2
    } else {
        0
    }
}

/// The credentials to test a stream with: those of the form where it names
/// a user, and none where it does not, whatever the password field holds.
pub fn test_credentials(username: String, password: String) -> (r: (Option<String>, Option<String>))
    ensures
        username@.len() > 0 ==> r == (Some(username), Some(password)),
        username@.len() == 0 ==> r == (None::<String>, None::<String>),
{
    if username.as_str().is_empty() {
        (None, None)
    } else {
        (Some(username), Some(password))
    }
}

} // verus!
