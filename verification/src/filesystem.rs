//! A session that several views hold together, and the views: files and the
//! configuration editor.

use crate::error::{outcome, Error, ErrorView};
use crate::guestfs::{
    creation_error, request, shutdown_of, status_outcome, teardown_of, Call, GuestFs, LastError,
    Operation, SessionState, Teardown,
};
use vstd::prelude::*;
use vstd::string::*;
use vstd::utf8::*;

verus! {

/// Which access control list of a file or directory is meant.
#[derive(Clone, Copy, Debug, PartialEq, Eq, Structural)]
pub enum AclType {
    /// The ordinary list, which any file, directory or other object has.
    Access,
    /// The list that a directory passes on to what is created in it.
    Default,
}

/// What becomes of a text that is read as a kind of access control list:
/// the kind that it names, or the text itself where it names none.
pub open spec fn acl_type_of(text: Seq<char>) -> Result<AclType, Seq<char>> {
    if text == "access"@ {
        Ok(AclType::Access)
    } else if text == "default"@ {
        Ok(AclType::Default)
    } else {
        Err(text)
    }
}

/// Whether two texts are the same, character by character.
fn same_text(a: &str, b: &str) -> (r: bool)
    ensures
        r == (a@ == b@),
{
    let x = a.as_bytes();
    let y = b.as_bytes();
    proof {
        encode_utf8_decode_utf8(a@);
        encode_utf8_decode_utf8(b@);
    }
    if x.len() != y.len() {
        return false;
    }
    let mut i: usize = 0;
    while i < x.len()
        invariant
            i <= x@.len(),
            x@.len() == y@.len(),
            x@ == a.spec_bytes(),
            y@ == b.spec_bytes(),
            forall|j: int| 0 <= j < i ==> x@[j] == y@[j],
        decreases x@.len() - i,
    {
        if x[i] != y[i] {
            return false;
        }
        i += 1;
    }
    assert(x@ =~= y@);
    true
}

impl AclType {
    /// The name of the kind as the engine spells it.
    pub open spec fn text(&self) -> Seq<char> {
        match self {
            AclType::Access => "access"@,
            AclType::Default => "default"@,
        }
    }

    /// The name of the kind as the engine spells it.
    pub fn to_str(&self) -> (s: &'static str)
        ensures
            s@ == self.text(),
    {
        match self {
            AclType::Access => "access",
            AclType::Default => "default",
        }
    }

    /// The name of the kind, as a string of its own.
    pub fn to_string(&self) -> (s: String)
        ensures
            s@ == self.text(),
    {
        self.to_str().to_owned()
    }

    /// Reads the name of a kind. A text that names none comes back as the
    /// error.
    pub fn from_str(s: &str) -> (r: Result<AclType, String>)
        ensures
            match r {
                Ok(kind) => acl_type_of(s@) == Ok::<AclType, Seq<char>>(kind),
                Err(text) => acl_type_of(s@) == Err::<AclType, Seq<char>>(text@),
            },
    {
        if same_text(s, "access") {
            Ok(AclType::Access)
        } else if same_text(s, "default") {
            Ok(AclType::Default)
        } else {
            Err(s.to_owned())
        }
    }

    /// The name of a kind reads back as that kind.
    pub proof fn lemma_name_reads_back(self)
        ensures
            acl_type_of(self.text()) == Ok::<AclType, Seq<char>>(self),
    {
        reveal_strlit("access");
        reveal_strlit("default");
        assert("access"@.len() != "default"@.len());
    }

    /// A text that reads as a kind is the name of that kind.
    pub proof fn lemma_read_is_name(text: Seq<char>, kind: AclType)
        requires
            acl_type_of(text) == Ok::<AclType, Seq<char>>(kind),
        ensures
            kind.text() == text,
    {
    }
}

impl core::str::FromStr for AclType {
    type Err = String;

    /// Reads the name of a kind, as [`AclType::from_str`] does: a text that
    /// names none comes back as the error.
    fn from_str(s: &str) -> (r: Result<AclType, String>)
        ensures
            match r {
                Ok(kind) => acl_type_of(s@) == Ok::<AclType, Seq<char>>(kind),
                Err(text) => acl_type_of(s@) == Err::<AclType, Seq<char>>(text@),
            },
    {
        AclType::from_str(s)
    }
}

/// A session that several hold, as contracts speak of it.
pub struct SharedState {
    /// The session.
    pub session: SessionState,
    /// How many hold it: the session object and the views on it.
    pub holders: nat,
}

/// What becomes of a session when one of its holders lets go.
pub enum ReleasedState {
    /// Others still hold the session.
    Shared(SharedState),
    /// That was the last holder: the session ends with this teardown.
    Last(Teardown),
}

/// What becomes of a session in `state` when one of its holders lets go.
pub open spec fn release_of(state: SharedState) -> ReleasedState {
    if state.holders <= 1 {
        ReleasedState::Last(teardown_of(state.session))
    } else {
        ReleasedState::Shared(SharedState { holders: (state.holders - 1) as nat, ..state })
    }
}

/// The teardowns that come of it when `n` holders of a session in `state`
/// let go one after the other, in their order.
pub open spec fn teardowns(state: SharedState, n: nat) -> Seq<Teardown>
    decreases n,
{
    if n == 0 {
        Seq::empty()
    } else {
        match release_of(state) {
            ReleasedState::Last(teardown) => seq![teardown],
            ReleasedState::Shared(rest) => teardowns(rest, (n - 1) as nat),
        }
    }
}

/// A session is torn down when its last holder lets go, and only then: as
/// long as a holder is left no teardown has come, and when all have let go
/// exactly one has come, which releases the session's handle.
pub proof fn lemma_one_teardown(state: SharedState, n: nat)
    requires
        state.holders >= 1,
    ensures
        n < state.holders ==> teardowns(state, n) == Seq::<Teardown>::empty(),
        n >= state.holders ==> teardowns(state, n) == seq![teardown_of(state.session)],
    decreases n,
{
    if n > 0 {
        match release_of(state) {
            ReleasedState::Last(_) => {},
            ReleasedState::Shared(rest) => {
                lemma_one_teardown(rest, (n - 1) as nat);
            },
        }
    }
}

/// A session of the engine that the session object and the views on it
/// hold together.
///
/// Every holder works on the same native handle; none of them owns it
/// alone. The handle is released when the last of them lets go.
///
/// The engine takes one call at a time on a handle, and its note of a
/// failure is good until the next call. So whoever works on the session
/// has this value to itself from the request for a call until the answer
/// and the note have been read. Holders on several threads keep the value
/// behind a lock and take the lock for that whole span.
#[derive(Debug, PartialEq, Eq)]
pub struct GuestFileSystem {
    inner: GuestFs,
    views: usize,
}

/// What a holder gets back when it lets go of a session.
#[derive(Debug, PartialEq, Eq)]
pub enum Released {
    /// Others still hold the session: here it is, with one holder less.
    Shared(GuestFileSystem),
    /// That was the last holder: the session has ended, and this is what
    /// is left to do on the engine.
    Last(Teardown),
}

impl View for GuestFileSystem {
    type V = SharedState;

    closed spec fn view(&self) -> SharedState {
        SharedState { session: self.inner@, holders: (self.views + 1) as nat }
    }
}

impl View for Released {
    type V = ReleasedState;

    open spec fn view(&self) -> ReleasedState {
        match *self {
            Released::Shared(session) => ReleasedState::Shared(session@),
            Released::Last(teardown) => ReleasedState::Last(teardown),
        }
    }
}

impl GuestFileSystem {
    /// Opens a session on the handle that the engine created, with the
    /// session object as its one holder.
    ///
    /// A null handle means that the engine could not create one: it gives
    /// an error and no session.
    pub fn new(handle: usize) -> (r: Result<GuestFileSystem, Error>)
        ensures
            match r {
                Ok(session) => handle != 0 && session@ == (SharedState {
                    session: SessionState { handle, shut_down: false },
                    holders: 1,
                }),
                Err(e) => handle == 0 && e@ == creation_error(),
            },
    {
        match GuestFs::new(handle) {
            Ok(inner) => Ok(GuestFileSystem { inner, views: 0 }),
            Err(e) => Err(e),
        }
    }

    /// The session that the holders share. What the engine's answers mean is
    /// found there.
    pub fn inner(&self) -> (r: &GuestFs)
        ensures
            r@ == self@.session,
    {
        &self.inner
    }

    /// The native handle as an address.
    pub fn handle(&self) -> (h: usize)
        ensures
            h == self@.session.handle,
            h != 0,
    {
        self.inner.handle()
    }

    /// How many views hold the session besides the session object.
    pub fn views(&self) -> (n: usize)
        ensures
            n + 1 == self@.holders,
    {
        self.views
    }

    /// Whether one more view can hold the session: the count of its
    /// holders has a greatest value.
    pub fn can_share(&self) -> (r: bool)
        ensures
            r == (self@.holders <= usize::MAX),
    {
        self.views < usize::MAX
    }

    /// Counts one more holder of the session.
    pub fn share(&mut self)
        requires
            old(self)@.holders <= usize::MAX,
        ensures
            final(self)@ == (SharedState { holders: old(self)@.holders + 1, ..old(self)@ }),
    {
        self.views = self.views + 1;
    }

    /// Lets go of the session for one of its holders.
    ///
    /// As long as others hold the session it comes back with one holder
    /// less. The last holder gets the teardown instead, and no session: so
    /// nothing can be asked of a session that has ended, and no session
    /// ends twice.
    pub fn release(self) -> (r: Released)
        ensures
            r@ == release_of(self@),
    {
        if self.views == 0 {
            Released::Last(self.inner.close())
        } else {
            Released::Shared(GuestFileSystem { inner: self.inner, views: self.views - 1 })
        }
    }

    /// Asks the engine to shut down, once: see [`GuestFs::shutdown`].
    ///
    /// A session that no holder shuts down is shut down by its teardown.
    pub fn shutdown(&mut self) -> (r: Option<Call>)
        ensures
            (final(self)@.session, r.deep_view()) == shutdown_of(old(self)@.session),
            final(self)@.holders == old(self)@.holders,
    {
        self.inner.shutdown()
    }

    /// Attaches the image at `path` as a drive.
    pub fn add_drive(&mut self, path: &str) -> (r: Result<Call, Error>)
        ensures
            final(self)@ == old(self)@,
            outcome(r) == request(Operation::AddDrive, seq![path@]),
    {
        self.inner.add_drive(path)
    }

    /// Lists the filesystems of the attached drives.
    pub fn list_filesystems(&self) -> (r: Result<Call, Error>)
        ensures
            outcome(r) == request(Operation::ListFilesystems, Seq::<Seq<char>>::empty()),
    {
        self.inner.list_filesystems()
    }

    /// Mounts the device `devpath` at `mountpoint`.
    pub fn mount(&mut self, devpath: &str, mountpoint: &str) -> (r: Result<Call, Error>)
        ensures
            final(self)@ == old(self)@,
            outcome(r) == request(Operation::Mount, seq![devpath@, mountpoint@]),
    {
        self.inner.mount(devpath, mountpoint)
    }

    /// Unmounts what is mounted at `mountpoint`.
    pub fn umount(&mut self, mountpoint: &str) -> (r: Result<Call, Error>)
        ensures
            final(self)@ == old(self)@,
            outcome(r) == request(Operation::Umount, seq![mountpoint@]),
    {
        self.inner.umount(mountpoint)
    }

    /// Creates an empty file at `path`.
    pub fn touch(&mut self, path: &str) -> (r: Result<Call, Error>)
        ensures
            final(self)@ == old(self)@,
            outcome(r) == request(Operation::Touch, seq![path@]),
    {
        self.inner.touch(path)
    }

    /// Reads the access control list of `path` that `acl_type` names, such as
    /// `user::rwx,group::r--,other::r--`.
    pub fn acl_get_file(&self, path: &str, acl_type: AclType) -> (r: Result<Call, Error>)
        ensures
            outcome(r) == request(Operation::AclGetFile, seq![path@, acl_type.text()]),
    {
        self.inner.acl_get_file(path, acl_type.to_str())
    }

    /// Writes `acl` as the access control list of `path` that `acl_type`
    /// names.
    pub fn acl_set_file(&self, path: &str, acl_type: AclType, acl: &str) -> (r: Result<Call, Error>)
        ensures
            outcome(r) == request(Operation::AclSetFile, seq![path@, acl_type.text(), acl@]),
    {
        self.inner.acl_set_file(path, acl_type.to_str(), acl)
    }
}

/// A file of a session, as a view on that session.
#[derive(Debug, PartialEq, Eq)]
pub struct GuestFile {
    path: String,
}

impl View for GuestFile {
    type V = Seq<char>;

    /// The path of the file in the session.
    closed spec fn view(&self) -> Seq<char> {
        self.path@
    }
}

impl GuestFile {
    /// The path of the file in the session.
    pub fn path(&self) -> (r: &str)
        ensures
            r@ == self@,
    {
        self.path.as_str()
    }

    /// Makes the view on the file at `path` that the session was asked to
    /// create by [`GuestFileSystem::touch`], from the status that the
    /// engine handed back.
    ///
    /// Where the engine failed there is no view, and the session has the
    /// holders that it had.
    pub fn create(fs: &mut GuestFileSystem, path: String, retcode: i32, last: &LastError) -> (r:
        Result<GuestFile, Error>)
        requires
            old(fs)@.holders <= usize::MAX,
        ensures
            match r {
                Ok(file) => retcode == 0 && file@ == path@ && final(fs)@ == (SharedState {
                    holders: old(fs)@.holders + 1,
                    ..old(fs)@
                }),
                Err(e) => status_outcome(retcode, last) == Err::<(), ErrorView>(e@) && final(fs)@
                    == old(fs)@,
            },
    {
        match fs.inner.wrap_error(retcode, last) {
            Ok(()) => {
                fs.share();
                Ok(GuestFile { path })
            },
            Err(e) => Err(e),
        }
    }

    /// Copies the file to `dest` on the host, through the session `fs`.
    pub fn download(&self, fs: &GuestFileSystem, dest: &str) -> (r: Result<Call, Error>)
        ensures
            outcome(r) == request(Operation::Download, seq![self@, dest@]),
    {
        fs.inner.download(self.path.as_str(), dest)
    }

    /// Reads the file as bytes, through the session `fs`.
    pub fn cat(&self, fs: &GuestFileSystem) -> (r: Result<Call, Error>)
        ensures
            outcome(r) == request(Operation::Cat, seq![self@]),
    {
        fs.inner.cat(self.path.as_str())
    }

    /// Ends the view and lets go of the session for it.
    pub fn close(self, fs: GuestFileSystem) -> (r: Released)
        ensures
            r@ == release_of(fs@),
    {
        fs.release()
    }
}

/// The configuration editor of a session, as a view on that session.
///
/// The editor is a session of its own inside the engine, with a close of its
/// own.
#[derive(Debug, PartialEq, Eq)]
pub struct Augeas {
    devpath: String,
    closed: bool,
}

impl View for Augeas {
    type V = Seq<char>;

    /// The device whose configuration is edited.
    closed spec fn view(&self) -> Seq<char> {
        self.devpath@
    }
}

impl Augeas {
    /// The device whose configuration is edited.
    pub fn devpath(&self) -> (r: &str)
        ensures
            r@ == self@,
    {
        self.devpath.as_str()
    }

    /// Whether the editor's close has been asked for.
    pub closed spec fn spec_is_closed(&self) -> bool {
        self.closed
    }

    /// Whether the editor's close has been asked for.
    #[verifier::when_used_as_spec(spec_is_closed)]
    pub fn is_closed(&self) -> (r: bool)
        ensures
            r == self.is_closed(),
    {
        self.closed
    }

    /// Makes the view on the editor for the device `devpath`.
    pub fn open(fs: &mut GuestFileSystem, devpath: String) -> (r: Augeas)
        requires
            old(fs)@.holders <= usize::MAX,
        ensures
            r@ == devpath@,
            !r.is_closed(),
            final(fs)@ == (SharedState { holders: old(fs)@.holders + 1, ..old(fs)@ }),
    {
        fs.share();
        Augeas { devpath, closed: false }
    }

    /// Clears the node `augpath`, through the session `fs`.
    pub fn clear(&self, fs: &mut GuestFileSystem, augpath: &str) -> (r: Result<Call, Error>)
        ensures
            final(fs)@ == old(fs)@,
            outcome(r) == request(Operation::AugClear, seq![augpath@]),
    {
        fs.inner.aug_clear(augpath)
    }

    /// Asks the engine to close the editor, once.
    ///
    /// The first request gives the call to make. Every later one gives
    /// nothing: the editor is not closed twice.
    pub fn close(&mut self) -> (r: Option<Call>)
        ensures
            final(self)@ == old(self)@,
            final(self).is_closed(),
            r.deep_view() == if old(self).is_closed() {
                None
            } else {
                Some((Operation::AugClose, Seq::<Seq<u8>>::empty()))
            },
    {
        if self.closed {
            None
        } else {
            self.closed = true;
            Some(Call::plain(Operation::AugClose))
        }
    }

    /// Ends the view: closes the editor, unless its close has been asked
    /// for, and then lets go of the session.
    ///
    /// The editor's close comes before anything that the session's end
    /// brings. It is the first of the pair that is returned, the session's
    /// part the second.
    pub fn release(self, fs: GuestFileSystem) -> (r: (Option<Call>, Released))
        ensures
            r.0.deep_view() == if self.is_closed() {
                None
            } else {
                Some((Operation::AugClose, Seq::<Seq<u8>>::empty()))
            },
            r.1@ == release_of(fs@),
    {
        let mut view = self;
        let close = view.close();
        (close, fs.release())
    }
}

} // verus!
