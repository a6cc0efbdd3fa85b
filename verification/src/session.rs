//! What a mounted session allows, and how it is mounted.
use vstd::prelude::*;

verus! {

/// Largest amount of data that the kernel may send in one write.
pub const MAX_WRITE_SIZE: usize = 16 * 1024 * 1024;

/// Who may use a mounted filesystem.
#[derive(Debug, Clone, Copy, PartialEq, Eq, Structural)]
pub enum SessionACL {
    /// Everybody.
    All,
    /// The user that mounted it, and root.
    RootAndOwner,
    /// The user that mounted it.
    Owner,
}

impl SessionACL {
    /// Whether the user `uid` may use a filesystem that `owner` mounted.
    pub open spec fn allows(self, owner: u32, uid: u32) -> bool {
        match self {
            SessionACL::All => true,
            SessionACL::RootAndOwner => uid == owner || uid == 0,
            SessionACL::Owner => uid == owner,
        }
    }

    /// Tells whether the user `uid` may use a filesystem that `owner` mounted.
    pub fn is_allowed(&self, owner: u32, uid: u32) -> (r: bool)
        ensures
            r == self.allows(owner, uid),
    {
        match self {
            SessionACL::All => true,
            SessionACL::RootAndOwner => uid == owner || uid == 0,
            SessionACL::Owner => uid == owner,
        }
    }
}

/// An option to mount with.
#[derive(Debug, Clone, PartialEq, Eq)]
pub enum MountOption {
    /// Name of the source in the mount table.
    FSName(String),
    /// Subtype in the mount table.
    Subtype(String),
    /// Any other option, passed on as it is.
    CUSTOM(String),
    /// Allow all users to access the filesystem.
    AllowOther,
    /// Allow root, besides the mounting user, to access the filesystem.
    AllowRoot,
    /// Unmount when the mounting process exits.
    AutoUnmount,
    /// Let the kernel check permissions.
    DefaultPermissions,
    /// Allow device files.
    Dev,
    /// Disallow device files.
    NoDev,
    /// Honour set-user-id and set-group-id bits.
    Suid,
    /// Ignore set-user-id and set-group-id bits.
    NoSuid,
    /// Mount read-only.
    RO,
    /// Mount read-write.
    RW,
    /// Allow programs to be executed.
    Exec,
    /// Disallow programs to be executed.
    NoExec,
    /// Update access times.
    Atime,
    /// Do not update access times.
    NoAtime,
    /// Write directory changes at once.
    DirSync,
    /// Write all changes at once.
    Sync,
    /// Write changes when it suits.
    Async,
}

/// Whether root is allowed by an option.
pub open spec fn allows_root(options: Seq<MountOption>) -> bool {
    options.contains(MountOption::AllowRoot)
}

/// Whether all users are allowed by an option.
pub open spec fn allows_other(options: Seq<MountOption>) -> bool {
    options.contains(MountOption::AllowOther)
}

/// Whether automatic unmounting is asked for.
pub open spec fn unmounts_automatically(options: Seq<MountOption>) -> bool {
    options.contains(MountOption::AutoUnmount)
}

/// Whether allowing all users has to be added to `options`: automatic unmounting works only
/// on a filesystem that others than the mounting user may access.
pub open spec fn needs_allow_other(options: Seq<MountOption>) -> bool {
    unmounts_automatically(options) && !(allows_root(options) || allows_other(options))
}

/// The options that a filesystem is mounted with when `options` are asked for.
pub open spec fn options_to_mount_with(options: Seq<MountOption>) -> Seq<MountOption> {
    if needs_allow_other(options) {
        options.push(MountOption::AllowOther)
    } else {
        options
    }
}

/// Who may use a filesystem that is mounted with `options`.
pub open spec fn acl_of(options: Seq<MountOption>) -> SessionACL {
    if allows_root(options) {
        SessionACL::RootAndOwner
    } else if allows_other(options) {
        SessionACL::All
    } else {
        SessionACL::Owner
    }
}

/// The three options that decide how a session is set up.
#[derive(Debug, Clone, Copy, PartialEq, Eq, Structural)]
struct Found {
    auto_unmount: bool,
    allow_root: bool,
    allow_other: bool,
}

/// Looks for the three options that decide how a session is set up.
fn find_options(options: &[MountOption]) -> (r: Found)
    ensures
        r.auto_unmount == unmounts_automatically(options@),
        r.allow_root == allows_root(options@),
        r.allow_other == allows_other(options@),
{
    let mut found = Found { auto_unmount: false, allow_root: false, allow_other: false };
    let mut i: usize = 0;
    while i < options.len()
        invariant
            i <= options@.len(),
            found.auto_unmount == unmounts_automatically(options@.take(i as int)),
            found.allow_root == allows_root(options@.take(i as int)),
            found.allow_other == allows_other(options@.take(i as int)),
        decreases options@.len() - i,
    {
        let ghost before = options@.take(i as int);
        let ghost after = options@.take(i + 1);
        match &options[i] {
            MountOption::AutoUnmount => {
                found.auto_unmount = true;
            },
            MountOption::AllowRoot => {
                found.allow_root = true;
            },
            MountOption::AllowOther => {
                found.allow_other = true;
            },
            _ => {},
        }
        proof {
            assert(after =~= before.push(options@[i as int]));
            assert(after[i as int] == options@[i as int]);
            assert forall|x: MountOption|
                after.contains(x) <==> before.contains(x) || x == options@[i as int] by {
                if before.contains(x) {
                    let k = choose|k: int| 0 <= k < before.len() && before[k] == x;
                    assert(after[k] == x);
                }
                if after.contains(x) {
                    let k = choose|k: int| 0 <= k < after.len() && after[k] == x;
                    if k < i {
                        assert(before[k] == x);
                    }
                }
            }
        }
        i = i + 1;
    }
    assert(options@.take(options@.len() as int) =~= options@);
    found
}

/// The options to mount with when `options` are asked for: when automatic unmounting is
/// asked for without `AllowRoot` or `AllowOther`, `AllowOther` is added at the end.
pub fn mount_options(options: Vec<MountOption>) -> (r: Vec<MountOption>)
    ensures
        r@ == options_to_mount_with(options@),
{
    let mut options = options;
    let found: Found = find_options(options.as_slice());
    if found.auto_unmount && !(found.allow_root || found.allow_other) {
        options.push(MountOption::AllowOther);
    }
    options
}

/// Who may use a filesystem for which `options` were asked for.
pub fn session_acl(options: &[MountOption]) -> (r: SessionACL)
    ensures
        r == acl_of(options@),
{
    let found: Found = find_options(options);
    if found.allow_root {
        SessionACL::RootAndOwner
    } else if found.allow_other {
        SessionACL::All
    } else {
        SessionACL::Owner
    }
}

/// A filesystem that is to be unmounted automatically is mounted with `AllowRoot` or
/// `AllowOther`, whatever was asked for; every option asked for is kept.
pub proof fn law_automatic_unmount_opens_the_mount(options: Seq<MountOption>)
    ensures
        unmounts_automatically(options) ==> allows_root(options_to_mount_with(options))
            || allows_other(options_to_mount_with(options)),
        options.is_prefix_of(options_to_mount_with(options)),
{
    if needs_allow_other(options) {
        assert(options.push(MountOption::AllowOther).last() == MountOption::AllowOther);
    }
}

/// `AllowOther` that is added for automatic unmounting opens the mount to the kernel only:
/// the session itself goes on serving its owner alone.
pub proof fn law_added_option_does_not_widen_access(options: Seq<MountOption>)
    requires
        needs_allow_other(options),
    ensures
        acl_of(options) == SessionACL::Owner,
{
}

/// Root is served whenever `AllowRoot` is among the options, also next to `AllowOther`, which
/// then opens the session to nobody else.
pub proof fn law_allow_root_wins(options: Seq<MountOption>, owner: u32, uid: u32)
    requires
        allows_root(options),
    ensures
        acl_of(options).allows(owner, uid) <==> uid == owner || uid == 0,
{
}

/// The owner is never refused.
pub proof fn law_owner_is_allowed(acl: SessionACL, owner: u32)
    ensures
        acl.allows(owner, owner),
{
}

/// Who may use a filesystem depends on `AllowRoot` and `AllowOther` alone: with the first, root
/// and the owner; without it, everybody with the second, and the owner without both. No other
/// option plays a part, nor does the order of the options.
pub proof fn law_two_options_decide_who_is_allowed(options: Seq<MountOption>, more: MountOption)
    ensures
        options.contains(MountOption::AllowRoot) <==> acl_of(options) == SessionACL::RootAndOwner,
        options.contains(MountOption::AllowOther) && !options.contains(MountOption::AllowRoot)
            <==> acl_of(options) == SessionACL::All,
        !options.contains(MountOption::AllowOther) && !options.contains(MountOption::AllowRoot)
            <==> acl_of(options) == SessionACL::Owner,
        more != MountOption::AllowRoot && more != MountOption::AllowOther ==> acl_of(
            options.push(more),
        ) == acl_of(options),
{
    assert forall|x: MountOption| #[trigger]
        options.push(more).contains(x) <==> options.contains(x) || x == more by {
        if options.contains(x) {
            let k = choose|k: int| 0 <= k < options.len() && options[k] == x;
            assert(options.push(more)[k] == x);
        }
        if x == more {
            assert(options.push(more).last() == x);
        }
        if options.push(more).contains(x) {
            let k = choose|k: int| 0 <= k <= options.len() && options.push(more)[k] == x;
            if k < options.len() {
                assert(options[k] == x);
            }
        }
    }
}

/// A session that is open to everybody refuses nobody; one that is open to its owner and root
/// refuses all others, and one that is open to its owner refuses root too, unless root owns it.
pub proof fn law_who_is_allowed(owner: u32, uid: u32)
    ensures
        SessionACL::All.allows(owner, uid),
        SessionACL::RootAndOwner.allows(owner, uid) <==> uid == owner || uid == 0,
        SessionACL::Owner.allows(owner, uid) <==> uid == owner,
{
}

/// `AllowOther` is added behind the options asked for exactly if they ask for automatic
/// unmounting and for neither `AllowRoot` nor `AllowOther`; otherwise they are left alone. To
/// add it once is enough.
pub proof fn law_options_to_mount_with(options: Seq<MountOption>)
    ensures
        options.contains(MountOption::AutoUnmount) && !options.contains(MountOption::AllowRoot)
            && !options.contains(MountOption::AllowOther) ==> options_to_mount_with(options)
            == options.push(MountOption::AllowOther),
        !(options.contains(MountOption::AutoUnmount) && !options.contains(MountOption::AllowRoot)
            && !options.contains(MountOption::AllowOther)) ==> options_to_mount_with(options)
            == options,
        options_to_mount_with(options_to_mount_with(options)) == options_to_mount_with(options),
{
    if needs_allow_other(options) {
        assert(options.push(MountOption::AllowOther).last() == MountOption::AllowOther);
    }
}

/// What to do is not supported on this operating system.
#[derive(Debug, Clone, Copy, PartialEq, Eq, Structural)]
pub struct Unsupported;

/// What follows when it has been tried to mount a filesystem.
#[derive(Debug)]
pub enum AfterMount<S, E> {
    /// Run the session as it was settled.
    Run(S),
    /// Hand on the error. Nothing is run.
    Fail(E),
}

/// What follows when it has been tried to mount a filesystem for the session `settled`.
pub open spec fn after_mount_of<S, E>(settled: S, mounted: Result<(), E>) -> AfterMount<S, E> {
    match mounted {
        Ok(_) => AfterMount::Run(settled),
        Err(err) => AfterMount::Fail(err),
    }
}

/// Tells what follows when it has been tried to mount a filesystem for the session `settled`.
pub fn after_mount<S, E>(settled: S, mounted: Result<(), E>) -> (r: AfterMount<S, E>)
    ensures
        r == after_mount_of(settled, mounted),
{
    match mounted {
        Ok(_) => AfterMount::Run(settled),
        Err(err) => AfterMount::Fail(err),
    }
}

/// A session is run exactly if its filesystem was mounted, and then as it was settled; the
/// error of a mount that failed is handed on.
pub proof fn law_a_failed_mount_runs_nothing<S, E>(settled: S, mounted: Result<(), E>)
    ensures
        after_mount_of(settled, mounted) is Run <==> mounted is Ok,
        after_mount_of(settled, mounted) matches AfterMount::Run(run) ==> run == settled,
        mounted matches Err(err) ==> after_mount_of(settled, mounted) == AfterMount::<
            S,
            E,
        >::Fail(err),
{
}

} // verus!
