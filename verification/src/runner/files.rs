//! The files that a program finds when it starts.

use vstd::prelude::*;
use vstd::string::StringExecFns;

use crate::runner::command::{RunError, DEFAULT_GUEST_GID, DEFAULT_GUEST_UID};

verus! {

/// Who a file belongs to.
#[derive(Clone, Copy, Debug, PartialEq, Eq, Structural)]
pub struct UserInfo {
    pub user: u16,
    pub group: u16,
}

/// A file of the host, or a directory on the way to it.
#[derive(Debug)]
pub struct HostNode {
    pub path: String,
    pub mode: u32,
    /// Who it belongs to on the host.
    pub user: u32,
}

/// What is at a path.
#[derive(Debug)]
pub enum InitialNode {
    Directory { mode: u32, owner: UserInfo },
    File { mode: u32, owner: UserInfo, data: Vec<u8> },
}

/// What a program finds at a path.
#[derive(Debug)]
pub struct InitialEntry {
    pub path: String,
    pub node: InitialNode,
}

/// All may read, write and search.
pub const TMP_MODE: u32 = 0o777;

/// Who a file belongs to for the program: to the superuser where it and the
/// directory that holds it do so on the host.
pub open spec fn owned_by(parent_user: u32, user: u32) -> UserInfo {
    if parent_user == 0 && user == 0 {
        UserInfo { user: 0, group: 0 }
    } else {
        UserInfo { user: DEFAULT_GUEST_UID, group: DEFAULT_GUEST_GID }
    }
}

/// Who a file belongs to for the program.
pub fn owner_of(parent_user: u32, user: u32) -> (owner: UserInfo)
    ensures
        owner == owned_by(parent_user, user),
{
    if parent_user == 0 && user == 0 {
        UserInfo { user: 0, group: 0 }
    } else {
        UserInfo { user: DEFAULT_GUEST_UID, group: DEFAULT_GUEST_GID }
    }
}

/// Who the directory that holds the node at `i` belongs to; the root belongs to
/// the superuser.
pub open spec fn parent_user(nodes: Seq<HostNode>, i: int) -> u32 {
    if i <= 0 {
        0
    } else {
        nodes[i - 1].user
    }
}

/// Whether the entry is that of the directory.
pub open spec fn is_directory(
    e: InitialEntry,
    path: Seq<char>,
    mode: u32,
    owner: UserInfo,
) -> bool {
    &&& e.path@ == path
    &&& e.node == (InitialNode::Directory { mode, owner })
}

/// Whether the entry is what the node at `i` becomes: the last one is the
/// program, the others are directories. A directory for temporary files is open
/// to all.
pub open spec fn is_entry_of(e: InitialEntry, nodes: Seq<HostNode>, i: int, data: Seq<u8>) -> bool {
    let n = nodes[i];
    let owner = owned_by(parent_user(nodes, i), n.user);
    if i < nodes.len() - 1 {
        is_directory(
            e,
            n.path@,
            if is_first_tmp(nodes, i) {
                TMP_MODE
            } else {
                n.mode
            },
            owner,
        )
    } else {
        &&& e.path@ == n.path@
        &&& e.node matches InitialNode::File { mode, owner: o, data: d } && mode == n.mode && o
            == owner && d@ == data
    }
}

/// Whether the node at `i` is the first one for temporary files.
pub open spec fn is_first_tmp(nodes: Seq<HostNode>, i: int) -> bool {
    &&& nodes[i].path@ == "/tmp"@
    &&& forall|j: int| 0 <= j < i ==> (#[trigger] nodes[j]).path@ != "/tmp"@
}

/// Whether there is a place for temporary files among the nodes.
pub open spec fn has_tmp(nodes: Seq<HostNode>) -> bool {
    exists|i: int| 0 <= i < nodes.len() && (#[trigger] nodes[i]).path@ == "/tmp"@
}

/// Whether the program is where a directory for temporary files has to be.
pub open spec fn tmp_is_program(nodes: Seq<HostNode>) -> bool {
    nodes.len() > 0 && is_first_tmp(nodes, nodes.len() - 1)
}

/// Why there is no place for a program on the host among the files, if there is
/// none.
pub open spec fn layout_error(nodes: Seq<HostNode>, from_host: bool) -> Option<RunError> {
    if !from_host {
        None
    } else if nodes.len() == 0 {
        Some(RunError::NoAncestors)
    } else if tmp_is_program(nodes) {
        Some(RunError::TmpIsNoDirectory)
    } else {
        None
    }
}

/// Whether this is what the program finds: the directories on the way to it,
/// the outermost first, the program itself, and a directory for temporary files
/// if there is none among those. Without a program on the host, only that
/// directory.
pub open spec fn is_layout_of(
    entries: Seq<InitialEntry>,
    nodes: Seq<HostNode>,
    program: Option<Seq<u8>>,
) -> bool {
    let root = UserInfo { user: 0, group: 0 };
    match program {
        None => entries.len() == 1 && is_directory(entries[0], "/tmp"@, TMP_MODE, root),
        Some(data) => {
            &&& forall|i: int|
                0 <= i < nodes.len() ==> is_entry_of(#[trigger] entries[i], nodes, i, data)
            &&& if has_tmp(nodes) {
                entries.len() == nodes.len()
            } else {
                entries.len() == nodes.len() + 1 && is_directory(
                    entries.last(),
                    "/tmp"@,
                    TMP_MODE,
                    root,
                )
            }
        },
    }
}

/// What the program finds when it starts.
pub fn initial_entries(nodes: Vec<HostNode>, program: Option<Vec<u8>>) -> (entries: Result<
    Vec<InitialEntry>,
    RunError,
>)
    ensures
        match entries {
            Ok(e) => layout_error(nodes@, program is Some) is None && is_layout_of(
                e@,
                nodes@,
                match program {
                    Some(data) => Some(data@),
                    None => None,
                },
            ),
            Err(e) => layout_error(nodes@, program is Some) == Some(e),
        },
{
    let root = UserInfo { user: 0, group: 0 };
    let mut entries: Vec<InitialEntry> = Vec::new();
    let tmp = String::from_str("/tmp");
    let mut found = false;
    if let Some(data) = program {
        if nodes.len() == 0 {
            return Err(RunError::NoAncestors);
        }
        let last: usize = nodes.len() - 1;
        let mut parent: u32 = 0;
        let mut i: usize = 0;
        while i < last
            invariant
                i <= last,
                nodes@.len() == last + 1,
                tmp@ == "/tmp"@,
                entries@.len() == i,
                parent == parent_user(nodes@, i as int),
                found == exists|k: int| 0 <= k < i && (#[trigger] nodes@[k]).path@ == "/tmp"@,
                forall|k: int|
                    0 <= k < i ==> is_entry_of(#[trigger] entries@[k], nodes@, k, data@),
            decreases last - i,
        {
            let node = &nodes[i];
            let is_tmp = node.path.eq(&tmp);
            let mode: u32 = if is_tmp && !found {
                TMP_MODE
            } else {
                node.mode
            };
            assert(is_first_tmp(nodes@, i as int) == (is_tmp && !found));
            entries.push(
                InitialEntry {
                    path: node.path.clone(),
                    node: InitialNode::Directory { mode, owner: owner_of(parent, node.user) },
                },
            );
            parent = node.user;
            found = found || is_tmp;
            i += 1;
        }
        let node = &nodes[last];
        let is_tmp = node.path.eq(&tmp);
        assert(is_first_tmp(nodes@, last as int) == (is_tmp && !found));
        if is_tmp && !found {
            return Err(RunError::TmpIsNoDirectory);
        }
        let ghost before = entries@;
        entries.push(
            InitialEntry {
                path: node.path.clone(),
                node: InitialNode::File {
                    mode: node.mode,
                    owner: owner_of(parent, node.user),
                    data,
                },
            },
        );
        proof {
            assert(is_entry_of(entries@[last as int], nodes@, last as int, data@));
            assert forall|k: int| 0 <= k < nodes@.len() implies is_entry_of(
                #[trigger] entries@[k],
                nodes@,
                k,
                data@,
            ) by {
                if k < last {
                    assert(before[k] == entries@[k]);
                }
            }
            assert(found == has_tmp(nodes@));
        }
    }
    if !found {
        entries.push(
            InitialEntry {
                path: tmp,
                node: InitialNode::Directory { mode: TMP_MODE, owner: root },
            },
        );
    }
    Ok(entries)
}

/// Nothing belongs to the superuser unless its directory does.
pub proof fn ownership_is_not_gained(parent_user: u32, user: u32)
    ensures
        owned_by(parent_user, user).user == 0 <==> (parent_user == 0 && user == 0),
{
}

/// A program on the host is found where it is there, byte for byte, below the
/// directories that lead to it.
pub proof fn programs_are_found_where_they_are(
    entries: Seq<InitialEntry>,
    nodes: Seq<HostNode>,
    data: Seq<u8>,
    i: int,
)
    requires
        nodes.len() > 0,
        is_layout_of(entries, nodes, Some(data)),
        0 <= i < nodes.len(),
    ensures
        entries[i].path@ == nodes[i].path@,
        i == nodes.len() - 1 ==> (entries[i].node matches InitialNode::File { mode, data: d, .. }
            && mode == nodes[i].mode && d@ == data),
        i < nodes.len() - 1 ==> (entries[i].node matches InitialNode::Directory { mode, .. } && (
        nodes[i].path@ != "/tmp"@ ==> mode == nodes[i].mode)),
        nodes.len() <= entries.len() <= nodes.len() + 1,
{
    assert(is_entry_of(entries[i], nodes, i, data));
}

/// Every program finds a directory for temporary files that is open to all,
/// wherever the program itself comes from.
pub proof fn temporary_files_have_a_place(
    entries: Seq<InitialEntry>,
    nodes: Seq<HostNode>,
    program: Option<Seq<u8>>,
)
    requires
        is_layout_of(entries, nodes, program),
        layout_error(nodes, program is Some) is None,
    ensures
        exists|i: int|
            0 <= i < entries.len() && (#[trigger] entries[i]).path@ == "/tmp"@ && (
            entries[i].node matches InitialNode::Directory { mode, .. } && mode == 0o777),
{
    match program {
        None => {
            assert(entries[0].path@ == "/tmp"@);
        },
        Some(data) => {
            if has_tmp(nodes) {
                let i = choose|i: int| 0 <= i < nodes.len() && (#[trigger] nodes[i]).path@ == "/tmp"@;
                let first = first_tmp(nodes, i);
                assert(is_entry_of(entries[first], nodes, first, data));
                assert(entries[first].path@ == "/tmp"@);
            } else {
                assert(entries[entries.len() - 1].path@ == "/tmp"@);
            }
        },
    }
}

/// Where there is a place for temporary files, there is a first one.
proof fn first_tmp(nodes: Seq<HostNode>, i: int) -> (first: int)
    requires
        0 <= i < nodes.len(),
        nodes[i].path@ == "/tmp"@,
    ensures
        0 <= first <= i,
        is_first_tmp(nodes, first),
    decreases i,
{
    if exists|j: int| 0 <= j < i && (#[trigger] nodes[j]).path@ == "/tmp"@ {
        let j = choose|j: int| 0 <= j < i && (#[trigger] nodes[j]).path@ == "/tmp"@;
        first_tmp(nodes, j)
    } else {
        i
    }
}

/// What does not belong to the superuser on the host belongs to the user that the
/// program runs for, and so does all that lies in such a directory.
pub proof fn programs_own_what_the_superuser_does_not(parent_user: u32, user: u32)
    ensures
        parent_user != 0 || user != 0 ==> owned_by(parent_user, user) == (UserInfo {
            user: 1000,
            group: 1000,
        }),
        owned_by(0, 0) == (UserInfo { user: 0, group: 0 }),
{
}

} // verus!
