//! One session of the engine: the calls that it makes, what the engine's
//! answers mean, and the end of the session.

use crate::error::{Error, ErrorRecord};
use crate::error::{outcome, ErrorView};
use crate::guestfs::ffi_utils::{
    byte_strings, c_string, c_string_content, c_string_texts, decoded, decoded_all, elements,
    from_c_string, from_c_string_lossy, from_raw_array_full, from_raw_cstring_array_full, has_nul,
    is_c_string, lemma_c_string_round_trip, lemma_elements_of_empty, lossy_text, nul_position,
    to_c_string, NativeSequence,
};
use crate::guestfs::types::{DirEntList, NativeResource, Release};
use vstd::prelude::*;
use vstd::string::*;
use vstd::utf8::*;

pub mod ffi_utils;
pub mod types;

verus! {

/// A capability of the engine that takes the session's handle.
#[derive(Clone, Copy, Debug, PartialEq, Eq, Structural)]
pub enum Operation {
    /// Ends the engine's work on the attached drives.
    Shutdown,
    /// Attaches a drive for reading and writing.
    AddDrive,
    /// Attaches a drive for reading only.
    AddDriveRo,
    /// Mounts a device at a mountpoint.
    Mount,
    /// Unmounts what is mounted at a mountpoint.
    Umount,
    /// Creates an empty file.
    Touch,
    /// Lists the partitions of the attached drives.
    ListPartitions,
    /// Lists the filesystems of the attached drives.
    ListFilesystems,
    /// Reads a file as a zero-terminated array of characters.
    Cat,
    /// Reads a file as a buffer with its length.
    ReadFile,
    /// Reads a file as an array of lines.
    ReadLines,
    /// Creates a directory.
    Mkdir,
    /// Creates a symbolic link.
    LnS,
    /// Lists the entries of a directory.
    Readdir,
    /// Copies a file to the host.
    Download,
    /// Reads an access control list.
    AclGetFile,
    /// Writes an access control list.
    AclSetFile,
    /// Clears a node of the configuration editor.
    AugClear,
    /// Closes the configuration editor.
    AugClose,
}

/// The number of texts that a capability takes besides the handle.
pub open spec fn arity_of(operation: Operation) -> nat {
    match operation {
        Operation::Shutdown
        | Operation::ListPartitions
        | Operation::ListFilesystems
        | Operation::AugClose => 0,
        Operation::AddDrive
        | Operation::AddDriveRo
        | Operation::Umount
        | Operation::Touch
        | Operation::Cat
        | Operation::ReadFile
        | Operation::ReadLines
        | Operation::Mkdir
        | Operation::Readdir
        | Operation::AugClear => 1,
        Operation::Mount | Operation::LnS | Operation::Download | Operation::AclGetFile => 2,
        Operation::AclSetFile => 3,
    }
}

impl Operation {
    /// The number of texts that the capability takes besides the handle.
    pub fn arity(self) -> (n: usize)
        ensures
            n == arity_of(self),
    {
        match self {
            Operation::Shutdown
            | Operation::ListPartitions
            | Operation::ListFilesystems
            | Operation::AugClose => 0,
            Operation::AddDrive
            | Operation::AddDriveRo
            | Operation::Umount
            | Operation::Touch
            | Operation::Cat
            | Operation::ReadFile
            | Operation::ReadLines
            | Operation::Mkdir
            | Operation::Readdir
            | Operation::AugClear => 1,
            Operation::Mount | Operation::LnS | Operation::Download | Operation::AclGetFile => 2,
            Operation::AclSetFile => 3,
        }
    }
}

/// One call of the engine, ready to be made: the capability and, in the
/// order of its parameters, the arguments as C strings.
///
/// A call has as many arguments as its capability takes. Every one of them
/// ends with its terminator and holds no other zero byte, so that the engine
/// reads each argument to its end and no further.
#[derive(Debug, PartialEq, Eq)]
pub struct Call {
    operation: Operation,
    arguments: Vec<Vec<u8>>,
}

impl View for Call {
    type V = (Operation, Seq<Seq<u8>>);

    closed spec fn view(&self) -> (Operation, Seq<Seq<u8>>) {
        (self.operation, self.arguments.deep_view())
    }
}

impl DeepView for Call {
    type V = (Operation, Seq<Seq<u8>>);

    open spec fn deep_view(&self) -> (Operation, Seq<Seq<u8>>) {
        self@
    }
}

/// `k` is the index of the first of `texts` that holds a zero byte.
pub open spec fn is_first_rejected(texts: Seq<Seq<char>>, k: int) -> bool {
    &&& 0 <= k < texts.len()
    &&& forall|i: int| 0 <= i < k ==> !has_nul(encode_utf8(#[trigger] texts[i]))
    &&& has_nul(encode_utf8(texts[k]))
}

/// The index of the first of `texts` that holds a zero byte.
pub open spec fn first_rejected(texts: Seq<Seq<char>>) -> int {
    choose|k: int| is_first_rejected(texts, k)
}

/// What becomes of a request for `operation` on `texts`: the call with
/// every text as a C string, or, where a text holds a zero byte, the
/// rejection of the first such text.
pub open spec fn request(operation: Operation, texts: Seq<Seq<char>>) -> Result<
    (Operation, Seq<Seq<u8>>),
    ErrorView,
> {
    if forall|i: int| 0 <= i < texts.len() ==> !has_nul(encode_utf8(#[trigger] texts[i])) {
        Ok((operation, Seq::new(texts.len(), |i: int| c_string(texts[i]))))
    } else {
        let text = texts[first_rejected(texts)];
        Err(ErrorView::NulError(nul_position(encode_utf8(text)) as usize))
    }
}

/// At most one text is the first that holds a zero byte.
pub proof fn lemma_first_rejected(texts: Seq<Seq<char>>, k: int)
    requires
        is_first_rejected(texts, k),
    ensures
        first_rejected(texts) == k,
{
    let m = first_rejected(texts);
    assert(is_first_rejected(texts, m));
    if m < k {
        assert(!has_nul(encode_utf8(texts[m])));
    } else if k < m {
        assert(!has_nul(encode_utf8(texts[k])));
    }
}

/// A request with an argument that holds a zero byte is rejected: no call
/// comes of it, so the engine is not reached.
pub proof fn lemma_zero_byte_gives_no_call(operation: Operation, texts: Seq<Seq<char>>, k: int)
    requires
        0 <= k < texts.len(),
        has_nul(encode_utf8(texts[k])),
    ensures
        request(operation, texts) is Err,
        request(operation, texts)->Err_0 is NulError,
{
}

/// A request whose arguments hold no zero byte gives the call with each
/// argument as its C string, from which the engine reads the argument back
/// unchanged.
pub proof fn lemma_arguments_arrive(operation: Operation, texts: Seq<Seq<char>>)
    requires
        forall|i: int| 0 <= i < texts.len() ==> !has_nul(encode_utf8(#[trigger] texts[i])),
    ensures
        request(operation, texts) is Ok,
        request(operation, texts)->Ok_0.0 == operation,
        request(operation, texts)->Ok_0.1.len() == texts.len(),
        forall|i: int|
            0 <= i < texts.len() ==> decoded(#[trigger] request(operation, texts)->Ok_0.1[i])
                == Ok::<Seq<char>, ErrorView>(texts[i]),
{
    assert forall|i: int| 0 <= i < texts.len() implies decoded(
        #[trigger] request(operation, texts)->Ok_0.1[i],
    ) == Ok::<Seq<char>, ErrorView>(texts[i]) by {
        lemma_c_string_round_trip(texts[i]);
    }
}

impl Call {
    #[verifier::type_invariant]
    spec fn inv(self) -> bool {
        &&& self.arguments@.len() == arity_of(self.operation)
        &&& forall|i: int|
            0 <= i < self.arguments@.len() ==> is_c_string((#[trigger] self.arguments@[i])@)
    }

    /// Prepares a call of `operation` with `texts` as its arguments.
    ///
    /// The arguments are encoded in their order, and the first that cannot
    /// be a C string is rejected: no call comes of such a request.
    pub(crate) fn new(operation: Operation, texts: Vec<&str>) -> (r: Result<Call, Error>)
        requires
            texts@.len() == arity_of(operation),
        ensures
            outcome(r) == request(operation, texts@.map_values(|t: &str| t@)),
    {
        let ghost chars = texts@.map_values(|t: &str| t@);
        let mut arguments: Vec<Vec<u8>> = Vec::new();
        let mut i: usize = 0;
        while i < texts.len()
            invariant
                i <= texts@.len(),
                chars == texts@.map_values(|t: &str| t@),
                arguments@.len() == i,
                forall|j: int| 0 <= j < i ==> !has_nul(encode_utf8(#[trigger] chars[j])),
                forall|j: int| 0 <= j < i ==> (#[trigger] arguments@[j])@ == c_string(chars[j]),
            decreases texts@.len() - i,
        {
            match to_c_string(texts[i]) {
                Ok(bytes) => {
                    assert(bytes.deep_view() =~= bytes@);
                    arguments.push(bytes);
                },
                Err(e) => {
                    proof {
                        assert(chars[i as int] == texts@[i as int]@);
                        lemma_first_rejected(chars, i as int);
                    }
                    return Err(e);
                },
            }
            i += 1;
        }
        proof {
            assert forall|j: int| 0 <= j < arguments@.len() implies is_c_string(
                (#[trigger] arguments@[j])@,
            ) by {
                lemma_c_string_round_trip(chars[j]);
            }
            assert forall|j: int| 0 <= j < arguments@.len() implies (
            #[trigger] arguments.deep_view()[j]) == c_string(chars[j]) by {
                assert(arguments@[j].deep_view() =~= arguments@[j]@);
            }
            assert(arguments.deep_view() =~= Seq::new(chars.len(), |j: int| c_string(chars[j])));
        }
        Ok(Call { operation, arguments })
    }

    /// Prepares a call of `operation`, which takes no argument.
    pub(crate) fn plain(operation: Operation) -> (r: Call)
        requires
            arity_of(operation) == 0,
        ensures
            r@ == (operation, Seq::<Seq<u8>>::empty()),
    {
        let call = Call { operation, arguments: Vec::new() };
        assert(call.arguments.deep_view() =~= Seq::<Seq<u8>>::empty());
        call
    }

    /// The capability to invoke.
    pub fn operation(&self) -> (r: Operation)
        ensures
            r == self@.0,
    {
        self.operation
    }

    /// The arguments in the order of the capability's parameters, each one
    /// a C string.
    pub fn arguments(&self) -> (r: &Vec<Vec<u8>>)
        ensures
            r.deep_view() == self@.1,
            r@.len() == arity_of(self@.0),
            forall|i: int| 0 <= i < r@.len() ==> is_c_string((#[trigger] r@[i])@),
    {
        proof {
            use_type_invariant(self);
        }
        &self.arguments
    }
}

/// The engine's note of the last failure on a handle, as it was read right
/// after a call and before any other call on that handle.
#[derive(Debug, Clone, PartialEq, Eq)]
pub struct LastError {
    /// The message as a C string; `None` where the engine holds none.
    pub message: Option<Vec<u8>>,
    /// The error number.
    pub errno: i32,
}

impl LastError {
    /// The message as text: what is not UTF-8 in it is replaced, and a
    /// message that the engine does not hold is empty.
    pub open spec fn text(&self) -> Seq<char> {
        match self.message {
            Some(bytes) => lossy_text(c_string_content(bytes@)),
            None => Seq::empty(),
        }
    }
}

/// The error for a call that failed with `status` while the engine held
/// `last`.
pub open spec fn engine_error(status: i32, last: &LastError) -> ErrorView {
    ErrorView::GuestFsError { status, message: last.text(), errno: last.errno }
}

/// What a status means: zero is success, every other value a failure of the
/// engine.
pub open spec fn status_outcome(status: i32, last: &LastError) -> Result<(), ErrorView> {
    if status == 0 {
        Ok(())
    } else {
        Err(engine_error(status, last))
    }
}

/// The error for a handle that the engine could not create. The engine
/// holds no note of such a failure, so the status and the error number are
/// zero.
pub open spec fn creation_error() -> ErrorView {
    ErrorView::GuestFsError { status: 0, message: "handle creation failed"@, errno: 0 }
}

/// One session of the engine: the only owner of its native handle.
#[derive(Debug, PartialEq, Eq)]
pub struct GuestFs {
    handle: usize,
    shut_down: bool,
}

/// A session as contracts speak of it.
pub struct SessionState {
    /// The native handle as an address, never null.
    pub handle: usize,
    /// Whether a shutdown has been asked for.
    pub shut_down: bool,
}

/// What is left to do on the engine when a session ends: the steps of its
/// teardown in their order.
#[derive(Clone, Copy, Debug, PartialEq, Eq, Structural)]
pub struct Teardown {
    /// Whether the engine is first asked to shut down; a failure of that
    /// step is dropped.
    pub shutdown: bool,
    /// The handle to release after that, whatever the shutdown gave.
    pub handle: usize,
}

/// What a request to shut down gives on a session in `state`: the state
/// after it, and the call to make where the engine has not been asked yet.
pub open spec fn shutdown_of(state: SessionState) -> (
    SessionState,
    Option<(Operation, Seq<Seq<u8>>)>,
) {
    (
        SessionState { shut_down: true, ..state },
        if state.shut_down {
            None
        } else {
            Some((Operation::Shutdown, Seq::empty()))
        },
    )
}

/// The teardown of a session in `state`: a shutdown where none has been
/// asked for, and the release of the handle.
pub open spec fn teardown_of(state: SessionState) -> Teardown {
    Teardown { shutdown: !state.shut_down, handle: state.handle }
}

/// The engine is asked to shut down at most once: after one request, be
/// it the first or not, another one changes nothing and gives no call, and
/// the teardown holds no shutdown.
pub proof fn lemma_shutdown_once(state: SessionState)
    ensures
        shutdown_of(shutdown_of(state).0) == (
            shutdown_of(state).0,
            None::<(Operation, Seq<Seq<u8>>)>,
        ),
        !teardown_of(shutdown_of(state).0).shutdown,
        teardown_of(shutdown_of(state).0).handle == state.handle,
{
}

impl View for GuestFs {
    type V = SessionState;

    closed spec fn view(&self) -> SessionState {
        SessionState { handle: self.handle, shut_down: self.shut_down }
    }
}

impl GuestFs {
    #[verifier::type_invariant]
    spec fn inv(self) -> bool {
        self.handle != 0
    }

    /// The native handle as an address.
    pub fn handle(&self) -> (h: usize)
        ensures
            h == self@.handle,
            h != 0,
    {
        proof {
            use_type_invariant(self);
        }
        self.handle
    }

    /// Whether a shutdown has been asked for.
    pub fn is_shut_down(&self) -> (r: bool)
        ensures
            r == self@.shut_down,
    {
        self.shut_down
    }

    /// Opens a session on the handle that the engine created.
    ///
    /// A null handle means that the engine could not create one: it gives
    /// an error and no session.
    pub fn new(handle: usize) -> (r: Result<GuestFs, Error>)
        ensures
            match r {
                Ok(session) => handle != 0 && session@ == (SessionState {
                    handle,
                    shut_down: false,
                }),
                Err(e) => handle == 0 && e@ == creation_error(),
            },
    {
        if handle == 0 {
            let message = String::from_str("handle creation failed");
            Err(Error::GuestFsError(ErrorRecord::new(0, message, 0)))
        } else {
            Ok(GuestFs { handle, shut_down: false })
        }
    }

    /// The error for a call that failed with `retcode`.
    #[must_use]
    pub fn parse_error(&self, retcode: i32, last: &LastError) -> (e: Error)
        ensures
            e@ == engine_error(retcode, last),
    {
        let message = match &last.message {
            Some(bytes) => from_c_string_lossy(bytes.as_slice()),
            None => String::new(),
        };
        Error::GuestFsError(ErrorRecord::new(retcode, message, last.errno))
    }

    /// The engine's error number for the last failure.
    #[must_use]
    pub fn last_error_number(&self, last: &LastError) -> (n: i32)
        ensures
            n == last.errno,
    {
        last.errno
    }

    /// Says what the status means that a call handed back.
    pub fn wrap_error(&self, retcode: i32, last: &LastError) -> (r: Result<(), Error>)
        ensures
            outcome(r) == status_outcome(retcode, last),
    {
        if retcode != 0 {
            Err(self.parse_error(retcode, last))
        } else {
            Ok(())
        }
    }

    /// Asks the engine to shut down, once.
    ///
    /// The first request gives the call to make. Every later one gives
    /// nothing: the engine is not asked twice.
    pub fn shutdown(&mut self) -> (r: Option<Call>)
        ensures
            (final(self)@, r.deep_view()) == shutdown_of(old(self)@),
    {
        proof {
            use_type_invariant(&*self);
        }
        if self.shut_down {
            None
        } else {
            self.shut_down = true;
            Some(Call::plain(Operation::Shutdown))
        }
    }

    /// Ends the session and gives what is left to do on the engine: a
    /// shutdown, unless one has been asked for, and then the release of the
    /// handle. The handle is never null.
    pub fn close(self) -> (r: Teardown)
        ensures
            r == teardown_of(self@),
            r.handle != 0,
    {
        proof {
            use_type_invariant(&self);
        }
        Teardown { shutdown: !self.shut_down, handle: self.handle }
    }

    /// Attaches the image at `path` as a drive for reading and writing.
    pub fn add_drive(&mut self, path: &str) -> (r: Result<Call, Error>)
        ensures
            final(self)@ == old(self)@,
            outcome(r) == request(Operation::AddDrive, seq![path@]),
    {
        call1(Operation::AddDrive, path)
    }

    /// Attaches the image at `path` as a drive for reading only.
    pub fn add_drive_ro(&self, path: &str) -> (r: Result<Call, Error>)
        ensures
            outcome(r) == request(Operation::AddDriveRo, seq![path@]),
    {
        call1(Operation::AddDriveRo, path)
    }

    /// Mounts the device `devpath` at `mountpoint`.
    pub fn mount(&mut self, devpath: &str, mountpoint: &str) -> (r: Result<Call, Error>)
        ensures
            final(self)@ == old(self)@,
            outcome(r) == request(Operation::Mount, seq![devpath@, mountpoint@]),
    {
        call2(Operation::Mount, devpath, mountpoint)
    }

    /// Unmounts what is mounted at `mountpoint`.
    pub fn umount(&mut self, mountpoint: &str) -> (r: Result<Call, Error>)
        ensures
            final(self)@ == old(self)@,
            outcome(r) == request(Operation::Umount, seq![mountpoint@]),
    {
        call1(Operation::Umount, mountpoint)
    }

    /// Creates an empty file at `path`.
    pub fn touch(&mut self, path: &str) -> (r: Result<Call, Error>)
        ensures
            final(self)@ == old(self)@,
            outcome(r) == request(Operation::Touch, seq![path@]),
    {
        call1(Operation::Touch, path)
    }

    /// Creates a directory at `path`.
    pub fn mkdir(&self, path: &str) -> (r: Result<Call, Error>)
        ensures
            outcome(r) == request(Operation::Mkdir, seq![path@]),
    {
        call1(Operation::Mkdir, path)
    }

    /// Creates at `linkpath` a symbolic link to `target`.
    pub fn ln_s(&self, target: &str, linkpath: &str) -> (r: Result<Call, Error>)
        ensures
            outcome(r) == request(Operation::LnS, seq![target@, linkpath@]),
    {
        call2(Operation::LnS, target, linkpath)
    }

    /// Lists the partitions of the attached drives, such as `/dev/sda1`.
    ///
    /// The engine answers with an array of strings: see [`GuestFs::wrap_strings`].
    pub fn list_partitions(&self) -> (r: Result<Call, Error>)
        ensures
            outcome(r) == request(Operation::ListPartitions, Seq::<Seq<char>>::empty()),
    {
        call0(Operation::ListPartitions)
    }

    /// Lists the filesystems of the attached drives.
    ///
    /// The engine answers with an array of strings: see [`GuestFs::wrap_strings`].
    pub fn list_filesystems(&self) -> (r: Result<Call, Error>)
        ensures
            outcome(r) == request(Operation::ListFilesystems, Seq::<Seq<char>>::empty()),
    {
        call0(Operation::ListFilesystems)
    }

    /// Reads the file at `path` as bytes.
    ///
    /// The engine answers with a zero-terminated array of characters: see
    /// [`GuestFs::wrap_chars`].
    pub fn cat(&self, path: &str) -> (r: Result<Call, Error>)
        ensures
            outcome(r) == request(Operation::Cat, seq![path@]),
    {
        call1(Operation::Cat, path)
    }

    /// Reads the file at `path`, which may hold zero bytes.
    ///
    /// The engine answers with a buffer and its length: see
    /// [`GuestFs::wrap_buffer`].
    pub fn read_file(&self, path: &str) -> (r: Result<Call, Error>)
        ensures
            outcome(r) == request(Operation::ReadFile, seq![path@]),
    {
        call1(Operation::ReadFile, path)
    }

    /// Reads the file at `path` line by line.
    ///
    /// The engine answers with an array of strings: see [`GuestFs::wrap_strings`].
    pub fn read_lines(&self, path: &str) -> (r: Result<Call, Error>)
        ensures
            outcome(r) == request(Operation::ReadLines, seq![path@]),
    {
        call1(Operation::ReadLines, path)
    }

    /// Lists the entries of the directory at `path`.
    ///
    /// The engine answers with a list of its own: see [`GuestFs::wrap_entries`].
    pub fn readdir(&self, path: &str) -> (r: Result<Call, Error>)
        ensures
            outcome(r) == request(Operation::Readdir, seq![path@]),
    {
        call1(Operation::Readdir, path)
    }

    /// Copies the file at `path` to `dest` on the host.
    pub fn download(&self, path: &str, dest: &str) -> (r: Result<Call, Error>)
        ensures
            outcome(r) == request(Operation::Download, seq![path@, dest@]),
    {
        call2(Operation::Download, path, dest)
    }

    /// Reads the access control list of `path`. `acltype` is `access` for
    /// the ordinary list and `default` for the one that a directory passes on.
    ///
    /// The engine answers with a string: see [`GuestFs::wrap_string`].
    pub fn acl_get_file(&self, path: &str, acltype: &str) -> (r: Result<Call, Error>)
        ensures
            outcome(r) == request(Operation::AclGetFile, seq![path@, acltype@]),
    {
        call2(Operation::AclGetFile, path, acltype)
    }

    /// Writes `acl` as the access control list of `path`; for `acltype` see
    /// [`GuestFs::acl_get_file`].
    pub fn acl_set_file(&self, path: &str, acltype: &str, acl: &str) -> (r: Result<Call, Error>)
        ensures
            outcome(r) == request(Operation::AclSetFile, seq![path@, acltype@, acl@]),
    {
        call3(Operation::AclSetFile, path, acltype, acl)
    }

    /// Clears the node `augpath` of the configuration editor.
    pub fn aug_clear(&mut self, augpath: &str) -> (r: Result<Call, Error>)
        ensures
            final(self)@ == old(self)@,
            outcome(r) == request(Operation::AugClear, seq![augpath@]),
    {
        call1(Operation::AugClear, augpath)
    }

    /// Closes the configuration editor.
    pub fn aug_close(&mut self) -> (r: Result<Call, Error>)
        ensures
            final(self)@ == old(self)@,
            outcome(r) == request(Operation::AugClose, Seq::<Seq<char>>::empty()),
    {
        call0(Operation::AugClose)
    }

    /// Says what the answer means of a call that hands back an array of
    /// strings.
    ///
    /// A null pointer in place of the array means that the call failed. An
    /// array, be it empty, is the call's result.
    pub fn wrap_strings(&self, raw: Option<NativeSequence<Vec<u8>>>, last: &LastError) -> (r:
        Result<Vec<String>, Error>)
        ensures
            outcome(r) == strings_outcome(raw, last),
    {
        match raw {
            None => Err(self.parse_error(self.last_error_number(last), last)),
            Some(array) => from_raw_cstring_array_full(array),
        }
    }

    /// Says what the answer means of a call that hands back one string.
    ///
    /// A null pointer in place of the string means that the call failed.
    pub fn wrap_string(&self, raw: Option<Vec<u8>>, last: &LastError) -> (r: Result<
        String,
        Error,
    >)
        ensures
            outcome(r) == string_outcome(raw, last),
    {
        match raw {
            None => Err(self.parse_error(self.last_error_number(last), last)),
            Some(bytes) => from_c_string(bytes.as_slice()),
        }
    }

    /// Says what the answer means of a call that hands back a
    /// zero-terminated array of characters. Each character becomes the byte
    /// with the same bits.
    ///
    /// A null pointer in place of the array means that the call failed.
    pub fn wrap_chars(&self, raw: Option<NativeSequence<i8>>, last: &LastError) -> (r: Result<
        Vec<u8>,
        Error,
    >)
        ensures
            outcome(r) == chars_outcome(raw, last),
    {
        match raw {
            None => Err(self.parse_error(self.last_error_number(last), last)),
            Some(array) => {
                let chars = from_raw_array_full(&array);
                let mut bytes: Vec<u8> = Vec::new();
                let mut i: usize = 0;
                while i < chars.len()
                    invariant
                        i <= chars@.len(),
                        bytes@.len() == i,
                        forall|j: int| 0 <= j < i ==> #[trigger] bytes@[j] == byte_of(chars@[j]),
                    decreases chars@.len() - i,
                {
                    let c = chars[i];
                    let byte = if c < 0 {
                        (c as i16 + 256) as u8
                    } else {
                        c as u8
                    };
                    bytes.push(byte);
                    i += 1;
                }
                assert(bytes.deep_view() =~= chars@.map_values(|c: i8| byte_of(c)));
                Ok(bytes)
            },
        }
    }

    /// Says what the answer means of a call that hands back a buffer with
    /// its length.
    ///
    /// A null pointer in place of the buffer means that the call failed.
    pub fn wrap_buffer(&self, raw: Option<Vec<i8>>, last: &LastError) -> (r: Result<
        Vec<i8>,
        Error,
    >)
        ensures
            outcome(r) == buffer_outcome(raw, last),
    {
        match raw {
            None => Err(self.parse_error(self.last_error_number(last), last)),
            Some(buffer) => {
                assert(buffer.deep_view() =~= buffer@);
                Ok(buffer)
            },
        }
    }

    /// Says what the answer means of a call that hands back a list of
    /// directory entries, and takes charge of the list.
    ///
    /// A null pointer in place of the list means that the call failed.
    pub fn wrap_entries(&self, raw: usize, last: &LastError) -> (r: Result<DirEntList, Error>)
        ensures
            match r {
                Ok(list) => raw != 0 && list.release() == Release::DirentList && list.address()
                    == raw && !list.is_released(),
                Err(e) => raw == 0 && e@ == null_error(last),
            },
    {
        match NativeResource::new(Release::DirentList, raw) {
            Some(list) => Ok(list),
            None => Err(self.parse_error(self.last_error_number(last), last)),
        }
    }
}

/// The error for a call that handed back a null pointer while the engine
/// held `last`: the engine's error number stands for the status.
pub open spec fn null_error(last: &LastError) -> ErrorView {
    engine_error(last.errno, last)
}

/// What an array of strings from the engine means, `None` being the null
/// pointer.
pub open spec fn strings_outcome(
    raw: Option<NativeSequence<Vec<u8>>>,
    last: &LastError,
) -> Result<Seq<Seq<char>>, ErrorView> {
    match raw {
        None => Err(null_error(last)),
        Some(array) => decoded_all(byte_strings(array@)),
    }
}

/// What a string from the engine means, `None` being the null pointer.
pub open spec fn string_outcome(raw: Option<Vec<u8>>, last: &LastError) -> Result<
    Seq<char>,
    ErrorView,
> {
    match raw {
        None => Err(null_error(last)),
        Some(bytes) => decoded(bytes@),
    }
}

/// The byte with the bits of a character of the engine, which is signed.
pub open spec fn byte_of(c: i8) -> u8 {
    if c < 0 {
        (c + 256) as u8
    } else {
        c as u8
    }
}

/// What a zero-terminated array of characters from the engine means, `None`
/// being the null pointer.
pub open spec fn chars_outcome(raw: Option<NativeSequence<i8>>, last: &LastError) -> Result<
    Seq<u8>,
    ErrorView,
> {
    match raw {
        None => Err(null_error(last)),
        Some(array) => Ok(elements(array@).map_values(|c: i8| byte_of(c))),
    }
}

/// What a buffer from the engine means, `None` being the null pointer.
pub open spec fn buffer_outcome(raw: Option<Vec<i8>>, last: &LastError) -> Result<
    Seq<i8>,
    ErrorView,
> {
    match raw {
        None => Err(null_error(last)),
        Some(buffer) => Ok(buffer@),
    }
}

/// A null pointer in place of an array is a failure of the engine, with
/// what the engine noted of it. An array that starts with its sentinel is a
/// result: the empty one.
pub proof fn lemma_null_is_not_empty(array: NativeSequence<Vec<u8>>, last: &LastError)
    requires
        array@.len() > 0,
        array@[0] is None,
    ensures
        strings_outcome(None, last) == Err::<Seq<Seq<char>>, ErrorView>(
            ErrorView::GuestFsError { status: last.errno, message: last.text(), errno: last.errno },
        ),
        strings_outcome(Some(array), last) == Ok::<Seq<Seq<char>>, ErrorView>(Seq::empty()),
{
    lemma_elements_of_empty(array@);
    assert(byte_strings(array@) =~= Seq::<Seq<u8>>::empty());
    assert(c_string_texts(byte_strings(array@))->Some_0 =~= Seq::<Seq<char>>::empty());
}

/// Prepares a call without arguments.
fn call0(operation: Operation) -> (r: Result<Call, Error>)
    requires
        arity_of(operation) == 0,
    ensures
        outcome(r) == request(operation, Seq::<Seq<char>>::empty()),
{
    let texts: Vec<&str> = Vec::new();
    assert(texts@.map_values(|t: &str| t@) =~= Seq::<Seq<char>>::empty());
    Call::new(operation, texts)
}

/// Prepares a call with one argument.
fn call1(operation: Operation, first: &str) -> (r: Result<Call, Error>)
    requires
        arity_of(operation) == 1,
    ensures
        outcome(r) == request(operation, seq![first@]),
{
    let texts = vec![first];
    assert(texts@.map_values(|t: &str| t@) =~= seq![first@]);
    Call::new(operation, texts)
}

/// Prepares a call with two arguments.
fn call2(operation: Operation, first: &str, second: &str) -> (r: Result<Call, Error>)
    requires
        arity_of(operation) == 2,
    ensures
        outcome(r) == request(operation, seq![first@, second@]),
{
    let texts = vec![first, second];
    assert(texts@.map_values(|t: &str| t@) =~= seq![first@, second@]);
    Call::new(operation, texts)
}

/// Prepares a call with three arguments.
fn call3(operation: Operation, first: &str, second: &str, third: &str) -> (r: Result<
    Call,
    Error,
>)
    requires
        arity_of(operation) == 3,
    ensures
        outcome(r) == request(operation, seq![first@, second@, third@]),
{
    let texts = vec![first, second, third];
    assert(texts@.map_values(|t: &str| t@) =~= seq![first@, second@, third@]);
    Call::new(operation, texts)
}

} // verus!
