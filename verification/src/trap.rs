//! The trap trigger: a file system that fires when it is listed.
//!
//! The trap is a file system of one empty directory. Asking for the
//! attributes of that directory is answered and nothing more. Asking for a
//! listing is the tamper signal: the request is answered as any directory
//! would answer it, and the lockdown comes with the answer. The trigger
//! decides the answers; mounting the file system and sending the answers is
//! left to its caller.

use vstd::prelude::*;
use vstd::string::*;
use crate::guard::{lemma_one_lockdown_per_guard, Guard, GuardState, TamperEvent};
use crate::host::{no_such_entry, NO_SUCH_ENTRY};
use crate::lockdown::{LockdownExecutor, LockdownState};
use crate::mode::ArmMode;
use crate::volume::VolumeMapping;

verus! {

/// The inode of the trap's only directory.
pub const ROOT_INODE: u64 = 1;

/// A point in time, or a span of it, in seconds and nanoseconds.
#[derive(Clone, Copy, Debug, PartialEq, Eq, Structural)]
pub struct Timestamp {
    pub sec: i64,
    pub nsec: i32,
}

/// What kind of node an inode is. The trap holds directories only.
#[derive(Clone, Copy, Debug, PartialEq, Eq, Structural)]
pub enum NodeKind {
    Directory,
}

/// The attributes of a node.
#[derive(Clone, Copy, Debug, PartialEq, Eq, Structural)]
pub struct NodeAttr {
    pub ino: u64,
    pub size: u64,
    pub blocks: u64,
    pub atime: Timestamp,
    pub mtime: Timestamp,
    pub ctime: Timestamp,
    pub crtime: Timestamp,
    pub kind: NodeKind,
    pub perm: u16,
    pub nlink: u32,
    pub uid: u32,
    pub gid: u32,
    pub rdev: u32,
    pub flags: u32,
}

/// The answer to a request for a node's attributes.
#[derive(Clone, Copy, Debug, PartialEq, Eq, Structural)]
pub enum AttrReply {
    /// The attributes, good for `ttl`.
    Attr { ttl: Timestamp, attr: NodeAttr },
    /// The error number to fail the request with.
    Error(i32),
}

/// One entry of a directory listing.
#[derive(Debug, PartialEq, Eq)]
pub struct DirEntry {
    pub ino: u64,
    pub offset: i64,
    pub kind: NodeKind,
    pub name: String,
}

/// What a `DirEntry` says, as plain values.
pub struct DirEntryView {
    pub ino: u64,
    pub offset: i64,
    pub kind: NodeKind,
    pub name: Seq<char>,
}

impl View for DirEntry {
    type V = DirEntryView;

    open spec fn view(&self) -> DirEntryView {
        DirEntryView { ino: self.ino, offset: self.offset, kind: self.kind, name: self.name@ }
    }
}

/// The answer to a request for a directory's listing.
#[derive(Debug, PartialEq, Eq)]
pub enum DirReply {
    /// The entries to list.
    Entries(Vec<DirEntry>),
    /// The error number to fail the request with.
    Error(i32),
}

/// What a `DirReply` says, as plain values.
pub enum DirReplyView {
    Entries(Seq<DirEntryView>),
    Error(i32),
}

impl View for DirReply {
    type V = DirReplyView;

    open spec fn view(&self) -> DirReplyView {
        match self {
            DirReply::Entries(entries) => DirReplyView::Entries(
                entries@.map_values(|entry: DirEntry| entry@),
            ),
            DirReply::Error(errno) => DirReplyView::Error(*errno),
        }
    }
}

/// The time that every timestamp of the trap's directory shows.
pub open spec fn created() -> Timestamp {
    Timestamp { sec: 1381237736, nsec: 0 }
}

/// How long the attributes of the trap's directory stay good: one second.
pub open spec fn attr_ttl() -> Timestamp {
    Timestamp { sec: 1, nsec: 0 }
}

/// The attributes of the trap's directory: an empty directory that is open
/// to everyone and belongs to root.
pub open spec fn root_attr() -> NodeAttr {
    NodeAttr {
        ino: ROOT_INODE,
        size: 0,
        blocks: 0,
        atime: created(),
        mtime: created(),
        ctime: created(),
        crtime: created(),
        kind: NodeKind::Directory,
        perm: 0o777,
        nlink: 2,
        uid: 0,
        gid: 0,
        rdev: 0,
        flags: 0,
    }
}

/// The answer to a request for the attributes of `ino`: those of the trap's
/// directory for its inode, "no such entry" for any other.
pub open spec fn attr_reply(ino: u64) -> AttrReply {
    if ino == ROOT_INODE {
        AttrReply::Attr { ttl: attr_ttl(), attr: root_attr() }
    } else {
        AttrReply::Error(NO_SUCH_ENTRY)
    }
}

/// The entries `.` and `..`, both the trap's directory.
pub open spec fn dot_entries() -> Seq<DirEntryView> {
    seq![
        DirEntryView { ino: ROOT_INODE, offset: 0, kind: NodeKind::Directory, name: "."@ },
        DirEntryView { ino: ROOT_INODE, offset: 1, kind: NodeKind::Directory, name: ".."@ },
    ]
}

/// The answer to a request for the listing of `ino` from `offset` on: the
/// two conventional entries at the start of the trap's directory, nothing
/// further on, and "no such entry" for any other inode.
pub open spec fn dir_reply(ino: u64, offset: i64) -> DirReplyView {
    if ino != ROOT_INODE {
        DirReplyView::Error(NO_SUCH_ENTRY)
    } else if offset == 0 {
        DirReplyView::Entries(dot_entries())
    } else {
        DirReplyView::Entries(Seq::empty())
    }
}

/// The options to mount the trap with: access for users other than the one
/// who mounts it.
pub open spec fn mount_option_words() -> Seq<Seq<char>> {
    seq!["-o"@, "allow_other"@]
}

/// A trap trigger as contracts see it.
pub struct TrapState {
    pub mountpoint: Seq<char>,
    pub guard: GuardState,
}

/// One listing, one lockdown: a listing of the trap's directory from its
/// start is answered with `.` and `..`, and of the listings that reach a
/// fresh trap, however many they are, exactly one starts a lockdown.
pub proof fn lemma_listing_fires_once(trap: TrapState, listings: nat)
    requires
        !trap.guard.tripped,
        listings > 0,
    ensures
        dir_reply(ROOT_INODE, 0) == DirReplyView::Entries(dot_entries()),
        trap.guard.started() == Some(LockdownState::start(trap.guard.mode, trap.guard.volume)),
        trap.guard.lockdowns(listings) == 1,
{
    lemma_one_lockdown_per_guard(trap.guard, listings);
}

/// What a listing request comes to.
pub struct Enumeration {
    /// The answer to send. It goes out first.
    pub reply: DirReply,
    /// The lockdown to run once the answer is out, if this request was the
    /// first.
    pub lockdown: Option<LockdownExecutor>,
}

/// Guards a mountpoint by serving a trap file system there.
pub struct TrapTrigger {
    mountpoint: String,
    guard: Guard,
}

impl View for TrapTrigger {
    type V = TrapState;

    closed spec fn view(&self) -> TrapState {
        TrapState { mountpoint: self.mountpoint@, guard: self.guard@ }
    }
}

impl TrapTrigger {
    /// A trap for `mountpoint` that starts a lockdown of `volume` in `mode`
    /// when it fires.
    pub fn new(mountpoint: String, mode: ArmMode, volume: VolumeMapping) -> (trigger: TrapTrigger)
        ensures
            trigger@ == (TrapState {
                mountpoint: mountpoint@,
                guard: GuardState::fresh(mode, volume@),
            }),
    {
        TrapTrigger { mountpoint, guard: Guard::new(mode, volume) }
    }

    /// Answers a request for the attributes of `ino`. It is no tamper
    /// signal.
    pub fn getattr(&self, ino: u64) -> (reply: AttrReply)
        ensures
            reply == attr_reply(ino),
    {
        if ino == ROOT_INODE {
            let created = Timestamp { sec: 1381237736, nsec: 0 };
            AttrReply::Attr {
                ttl: Timestamp { sec: 1, nsec: 0 },
                attr: NodeAttr {
                    ino: ROOT_INODE,
                    size: 0,
                    blocks: 0,
                    atime: created,
                    mtime: created,
                    ctime: created,
                    crtime: created,
                    kind: NodeKind::Directory,
                    perm: 0o777,
                    nlink: 2,
                    uid: 0,
                    gid: 0,
                    rdev: 0,
                    flags: 0,
                },
            }
        } else {
            AttrReply::Error(no_such_entry())
        }
    }

    /// Answers a request for the listing of `ino` from `offset` on, and
    /// takes the request for a tamper signal, whichever node and offset it
    /// asks for. The first request is answered with the lockdown as well;
    /// no later request is.
    pub fn readdir(&mut self, ino: u64, offset: i64) -> (answer: Enumeration)
        ensures
            answer.reply@ == dir_reply(ino, offset),
            final(self)@ == (TrapState { guard: old(self)@.guard.trip(), ..old(self)@ }),
            match answer.lockdown {
                Some(executor) => old(self)@.guard.started() == Some(executor@),
                None => old(self)@.guard.started().is_none(),
            },
    {
        let reply = if ino != ROOT_INODE {
            DirReply::Error(no_such_entry())
        } else {
            let mut entries: Vec<DirEntry> = Vec::new();
            if offset == 0 {
                entries.push(
                    DirEntry {
                        ino: ROOT_INODE,
                        offset: 0,
                        kind: NodeKind::Directory,
                        name: String::from_str("."),
                    },
                );
                entries.push(
                    DirEntry {
                        ino: ROOT_INODE,
                        offset: 1,
                        kind: NodeKind::Directory,
                        name: String::from_str(".."),
                    },
                );
                assert(entries@.map_values(|entry: DirEntry| entry@) =~= dot_entries());
            } else {
                assert(entries@.map_values(|entry: DirEntry| entry@) =~= Seq::empty());
            }
            DirReply::Entries(entries)
        };
        let lockdown = self.guard.trip(TamperEvent {  });
        Enumeration { reply, lockdown }
    }

    /// The options to mount the trap with.
    pub fn mount_options() -> (options: Vec<String>)
        ensures
            options@.map_values(|option: String| option@) == mount_option_words(),
    {
        let mut options: Vec<String> = Vec::new();
        options.push(String::from_str("-o"));
        options.push(String::from_str("allow_other"));
        options
    }

    /// Where the trap is mounted.
    pub fn mountpoint(&self) -> (path: &String)
        ensures
            path@ == self@.mountpoint,
    {
        &self.mountpoint
    }

    /// Whether a listing request has reached the trap.
    pub fn has_fired(&self) -> (fired: bool)
        ensures
            fired == self@.guard.tripped,
    {
        self.guard.is_tripped()
    }
}

} // verus!
