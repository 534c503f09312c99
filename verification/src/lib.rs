//! Cross-process shared memory mappings and a lock-free event primitive.
//!
//! The crate verifies the core of a shared-memory lifecycle manager: the
//! configuration builder, the create/open protocols (id resolution, link-file
//! handling, retry policy), ownership tracking, the error taxonomy, and a
//! busy-wait event that lives inside a mapping's bytes.  The platform backend
//! that performs the actual system calls (object creation, mapping into the
//! address space, teardown) is unverified glue around this crate: it obtains
//! plain values from the functions here, performs the calls they ask for, and
//! reports each outcome back.

use vstd::prelude::*;

pub mod digits;
pub mod error;
pub mod event;

pub use error::ShmemError;
pub use event::BusyEvent;
pub use event::EventState;
pub use event::Timeout;

verus! {

use crate::digits::hex_seq;

/// The id used when the caller supplies none: `"/shmem_"` followed by the
/// process id in upper-case hexadecimal.
pub open spec fn default_id_seq(pid: u32) -> Seq<char> {
    "/shmem_"@ + hex_seq(pid as nat)
}

/// Builds the generated mapping id for one process.
pub fn default_os_id(pid: u32) -> (r: String)
    ensures
        r@ == default_id_seq(pid),
{
    let mut s = "/shmem_".to_owned();
    s.append(crate::digits::hex_string(pid).as_str());
    s
}

/// A failed open is retried only when the id came from a link file, at most
/// this many times.
pub const OPEN_RETRY_MAX: u32 = 5;

/// The pause between two such retries, in milliseconds.
pub const OPEN_RETRY_DELAY_MS: u64 = 50;

/// The mathematical content of a configuration.
pub struct ShmemConfView {
    pub owner: bool,
    pub os_id: Option<Seq<char>>,
    pub overwrite_flink: bool,
    pub flink_path: Option<Seq<char>>,
    pub size: nat,
}

/// Accumulates the parameters of a mapping before `create` or `open` runs:
/// an explicit id or none, the requested size, an optional link-file path,
/// and whether an existing link file may be overwritten.
#[derive(Clone)]
pub struct ShmemConf {
    owner: bool,
    os_id: Option<String>,
    overwrite_flink: bool,
    flink_path: Option<String>,
    size: usize,
}

impl View for ShmemConf {
    type V = ShmemConfView;

    closed spec fn view(&self) -> ShmemConfView {
        ShmemConfView {
            owner: self.owner,
            os_id: match self.os_id {
                Some(id) => Some(id@),
                None => None,
            },
            overwrite_flink: self.overwrite_flink,
            flink_path: match self.flink_path {
                Some(p) => Some(p@),
                None => None,
            },
            size: self.size as nat,
        }
    }
}

impl Default for ShmemConf {
    fn default() -> (r: Self)
        ensures
            r@ == (ShmemConfView {
                owner: false,
                os_id: None,
                overwrite_flink: false,
                flink_path: None,
                size: 0,
            }),
    {
        ShmemConf { owner: false, os_id: None, overwrite_flink: false, flink_path: None, size: 0 }
    }
}

/// How the id that `create` first hands to the backend was chosen, what to do
/// on a collision, and whether a link file is to be written afterwards.
pub struct CreatePlan {
    /// The size to request from the backend, never zero.
    pub size: usize,
    /// The id of the first creation attempt.  A collision retry generates
    /// the id again from the same process identity, so it retries this very
    /// id until the colliding object goes away.
    pub first_id: String,
    /// On a collision, try again with a freshly generated id (true exactly
    /// when no explicit id was configured; an explicit collision is final).
    pub retry_on_collision: bool,
    /// The link file to write once the mapping exists, if one was configured.
    pub link: Option<LinkPlan>,
}

/// The link file `create` is to write, and how to open it.
pub struct LinkPlan {
    /// Where the link file goes.
    pub path: String,
    /// True: truncate an existing file; false: creation must be exclusive.
    pub overwrite: bool,
}

/// What a `CreatePlan` must say for a given configuration and process id.
pub open spec fn create_plan_matches(v: ShmemConfView, pid: u32, p: CreatePlan) -> bool {
    &&& p.size as nat == v.size
    &&& p.first_id@ == (match v.os_id {
        Some(id) => id,
        None => default_id_seq(pid),
    })
    &&& p.retry_on_collision == (v.os_id is None)
    &&& (match v.flink_path {
        Some(path) => p.link matches Some(lp) && lp.path@ == path && lp.overwrite
            == v.overwrite_flink,
        None => p.link is None,
    })
}

/// Where the id that `open` uses comes from.
pub enum IdSource {
    /// The caller chose the id; a failed open is final.
    Explicit(String),
    /// The id is read from this link file on every attempt, so a failed open
    /// is retried while the writer may still be filling the file.
    LinkFile(String),
}

/// What `open` does after a failed attempt: wait and try again, or give up.
pub enum OpenRetryStep {
    /// Sleep this many milliseconds, re-read the link file, and retry.
    RetryAfterDelay(u64),
    /// Surface this error.
    Fail(ShmemError),
}

/// The protocol steps of writing a link file during `create`, fed with the
/// outcome of each file operation.
pub enum LinkWriteEvent {
    /// The file was opened (created) and is ready for the id.
    OpenedFresh,
    /// Exclusive creation was refused because the file already exists.
    OpenRejectedExists,
    /// Opening failed for any other reason.
    OpenFailed(std::io::Error),
    /// The id could not be written into the just-created file.
    WriteFailed(std::io::Error),
    /// The id was written in full.
    WriteDone,
}

/// What `create` must do next with the link file.  The caller holds a fresh
/// mapping it owns while this protocol runs: on either failing step it must
/// tear that mapping down — destroying the just-created OS object — before
/// the error is surfaced, so no orphan object survives a failed `create`.
pub enum LinkWriteStep {
    /// Write the mapping's id into the file.
    WriteId,
    /// Stop; the mapping must not keep a partial link, so the just-created
    /// file is removed (besides the owned mapping's teardown) before the
    /// error is surfaced.
    RemoveLinkAndFail(ShmemError),
    /// Stop with this error; no file was created, so only the owned mapping
    /// is torn down.
    Fail(ShmemError),
    /// The link file is complete.
    Done,
}

/// A backend failure, by the call that failed; OS codes are kept verbatim.
pub enum BackendFailure {
    /// Exclusive creation found an object with the same id.
    CreateCollision,
    /// Creating the object or mapping it into the address space failed.
    Create(u32),
    /// Preparing the fresh object failed: growing it to the requested size,
    /// or setting its permission bits.
    Setup(u32),
    /// Opening an existing object or mapping it failed.
    Open(u32),
}

impl ShmemConf {
    /// A configuration with no id, no link file, and size zero.
    pub fn new() -> (r: Self)
        ensures
            r@ == (ShmemConfView {
                owner: false,
                os_id: None,
                overwrite_flink: false,
                flink_path: None,
                size: 0,
            }),
    {
        ShmemConf::default()
    }

    /// Provide a specific OS identifier for the mapping.
    ///
    /// When not specified, an id is generated from the process id.
    pub fn id(self, os_id: &str) -> (r: Self)
        ensures
            r@ == (ShmemConfView { os_id: Some(os_id@), ..self@ }),
    {
        ShmemConf { os_id: Some(os_id.to_owned()), ..self }
    }

    /// Overwrite the link file if it already exists when calling `create`.
    pub fn force_create_flink(self) -> (r: Self)
        ensures
            r@ == (ShmemConfView { overwrite_flink: true, ..self@ }),
    {
        ShmemConf { overwrite_flink: true, ..self }
    }

    /// Create the mapping with a link file at this path, holding the unique
    /// id so other processes can discover the mapping through the filesystem.
    pub fn flink(self, path: &str) -> (r: Self)
        ensures
            r@ == (ShmemConfView { flink_path: Some(path@), ..self@ }),
    {
        ShmemConf { flink_path: Some(path.to_owned()), ..self }
    }

    /// Sets the size of the mapping that `create` will request.
    pub fn size(self, size: usize) -> (r: Self)
        ensures
            r@ == (ShmemConfView { size: size as nat, ..self@ }),
    {
        ShmemConf { size, ..self }
    }

    /// The configured link-file path, which `create` probes for an existing
    /// file before it plans anything.
    pub fn configured_flink(&self) -> (r: Option<&String>)
        ensures
            match r {
                Some(p) => self@.flink_path matches Some(v) && p@ == v,
                None => self@.flink_path is None,
            },
    {
        self.flink_path.as_ref()
    }

    /// Decides how `create` proceeds, before anything touches the OS.
    ///
    /// A zero requested size is rejected outright.  A configured link path
    /// whose file already exists (`flink_exists`) is rejected unless
    /// overwriting was requested.  Otherwise the returned plan fixes the
    /// first id to try, the collision policy, and the link file to write.
    pub fn create_plan(&self, pid: u32, flink_exists: bool) -> (r: Result<CreatePlan, ShmemError>)
        ensures
            ({
                let v = self@;
                if v.size == 0 {
                    r matches Err(e) && e == ShmemError::MapSizeZero
                } else if v.flink_path is Some && flink_exists && !v.overwrite_flink {
                    r matches Err(e) && e == ShmemError::LinkExists
                } else {
                    r matches Ok(p) && create_plan_matches(v, pid, p)
                }
            }),
    {
        if self.size == 0 {
            return Err(ShmemError::MapSizeZero);
        }
        if self.flink_path.is_some() && !self.overwrite_flink && flink_exists {
            return Err(ShmemError::LinkExists);
        }
        let first_id = match &self.os_id {
            Some(id) => id.as_str().to_owned(),
            None => default_os_id(pid),
        };
        let link = match &self.flink_path {
            Some(p) => Some(
                LinkPlan { path: p.as_str().to_owned(), overwrite: self.overwrite_flink },
            ),
            None => None,
        };
        Ok(CreatePlan { size: self.size, first_id, retry_on_collision: self.os_id.is_none(), link })
    }

    /// Decides where `open` takes its id from, before any I/O: the explicit
    /// id when one was configured, else the configured link file, and an
    /// error when the configuration names neither.
    pub fn open_source(&self) -> (r: Result<IdSource, ShmemError>)
        ensures
            ({
                let v = self@;
                if v.os_id is None && v.flink_path is None {
                    r matches Err(e) && e == ShmemError::NoLinkOrOsId
                } else if v.os_id is Some {
                    r matches Ok(s) && (s matches IdSource::Explicit(x) && v.os_id matches Some(
                        id,
                    ) && x@ == id)
                } else {
                    r matches Ok(s) && (v.flink_path matches Some(path) && s matches
                        IdSource::LinkFile(x) && x@ == path)
                }
            }),
    {
        match &self.os_id {
            Some(id) => Ok(IdSource::Explicit(id.as_str().to_owned())),
            None => match &self.flink_path {
                Some(p) => Ok(IdSource::LinkFile(p.as_str().to_owned())),
                None => Err(ShmemError::NoLinkOrOsId),
            },
        }
    }

    /// Consumes the configuration after the backend created and mapped the
    /// object: the resulting handle owns the mapping and reports the
    /// backend's final size.  A backend may round the requested size up but
    /// never down, so the handle's length covers the request.
    pub fn finish_create(self, unique_id: String, mapped_size: usize) -> (r: Shmem)
        requires
            mapped_size > 0,
            mapped_size >= self@.size,
        ensures
            r@.len >= self@.size,
            r@ == (ShmemView {
                owner: true,
                map_owner: true,
                os_id: unique_id@,
                flink_path: self@.flink_path,
                len: mapped_size as nat,
            }),
    {
        Shmem {
            config: ShmemConf { owner: true, size: mapped_size, ..self },
            mapping: MapData { owner: true, unique_id, map_size: mapped_size },
        }
    }

    /// Consumes the configuration after the backend opened and mapped an
    /// existing object: the resulting handle does not own the mapping, and
    /// its size is whatever the backend found.
    pub fn finish_open(self, unique_id: String, mapped_size: usize) -> (r: Shmem)
        requires
            mapped_size > 0,
        ensures
            r@ == (ShmemView {
                owner: false,
                map_owner: false,
                os_id: unique_id@,
                flink_path: self@.flink_path,
                len: mapped_size as nat,
            }),
    {
        Shmem {
            config: ShmemConf { owner: false, size: mapped_size, ..self },
            mapping: MapData { owner: false, unique_id, map_size: mapped_size },
        }
    }
}

/// Decides whether a failed open attempt is tried again: only when the id
/// came from a link file (its writer may not have finished writing the id),
/// only on a backend open failure, and at most `OPEN_RETRY_MAX` times.
pub fn open_retry_step(from_link: bool, failed_attempts: u32, err: ShmemError) -> (r:
    OpenRetryStep)
    ensures
        ({
            if from_link && failed_attempts < OPEN_RETRY_MAX && err matches
                ShmemError::MapOpenFailed(_) {
                r == OpenRetryStep::RetryAfterDelay(OPEN_RETRY_DELAY_MS)
            } else {
                r == OpenRetryStep::Fail(err)
            }
        }),
{
    match err {
        ShmemError::MapOpenFailed(code) => {
            if from_link && failed_attempts < OPEN_RETRY_MAX {
                OpenRetryStep::RetryAfterDelay(OPEN_RETRY_DELAY_MS)
            } else {
                OpenRetryStep::Fail(ShmemError::MapOpenFailed(code))
            }
        },
        _ => OpenRetryStep::Fail(err),
    }
}

/// Drives the link-file write during `create`: a rejected exclusive creation
/// means the link already exists; any other open failure is reported with
/// its cause; a failed write of the id removes the just-created file before
/// failing, so no partial link survives.
pub fn link_write_step(ev: LinkWriteEvent) -> (r: LinkWriteStep)
    ensures
        r == (match ev {
            LinkWriteEvent::OpenedFresh => LinkWriteStep::WriteId,
            LinkWriteEvent::OpenRejectedExists => LinkWriteStep::Fail(ShmemError::LinkExists),
            LinkWriteEvent::OpenFailed(e) => LinkWriteStep::Fail(ShmemError::LinkCreateFailed(e)),
            LinkWriteEvent::WriteFailed(e) => LinkWriteStep::RemoveLinkAndFail(
                ShmemError::LinkWriteFailed(e),
            ),
            LinkWriteEvent::WriteDone => LinkWriteStep::Done,
        }),
{
    match ev {
        LinkWriteEvent::OpenedFresh => LinkWriteStep::WriteId,
        LinkWriteEvent::OpenRejectedExists => LinkWriteStep::Fail(ShmemError::LinkExists),
        LinkWriteEvent::OpenFailed(e) => LinkWriteStep::Fail(ShmemError::LinkCreateFailed(e)),
        LinkWriteEvent::WriteFailed(e) => LinkWriteStep::RemoveLinkAndFail(
            ShmemError::LinkWriteFailed(e),
        ),
        LinkWriteEvent::WriteDone => LinkWriteStep::Done,
    }
}

/// Classifies a failure to read the id out of a link file during `open`: a
/// link that is absent outright is its own error, any other failure to open
/// or to read the file keeps its cause.
pub fn link_read_error(open_failure: bool, not_found: bool, cause: std::io::Error) -> (r:
    ShmemError)
    ensures
        r == (if open_failure && not_found {
            ShmemError::LinkDoesNotExist
        } else if open_failure {
            ShmemError::LinkOpenFailed(cause)
        } else {
            ShmemError::LinkReadFailed(cause)
        }),
{
    if open_failure {
        if not_found {
            ShmemError::LinkDoesNotExist
        } else {
            ShmemError::LinkOpenFailed(cause)
        }
    } else {
        ShmemError::LinkReadFailed(cause)
    }
}

/// Maps each backend failure to the error the caller sees, preserving the
/// OS code: a creation collision is its own error, a failed resize of the
/// fresh object is unclassified, everything else keeps its phase.
pub fn backend_error(f: BackendFailure) -> (r: ShmemError)
    ensures
        r == (match f {
            BackendFailure::CreateCollision => ShmemError::MappingIdExists,
            BackendFailure::Create(code) => ShmemError::MapCreateFailed(code),
            BackendFailure::Setup(code) => ShmemError::UnknownOsError(code),
            BackendFailure::Open(code) => ShmemError::MapOpenFailed(code),
        }),
{
    match f {
        BackendFailure::CreateCollision => ShmemError::MappingIdExists,
        BackendFailure::Create(code) => ShmemError::MapCreateFailed(code),
        BackendFailure::Setup(code) => ShmemError::UnknownOsError(code),
        BackendFailure::Open(code) => ShmemError::MapOpenFailed(code),
    }
}

/// Rejects a zero mapping size wherever the backend meets one: for the
/// requested size of a creation and for the discovered size of an opened
/// object alike.
pub fn backend_size_check(size: usize) -> (r: Result<(), ShmemError>)
    ensures
        if size == 0 {
            r matches Err(e) && e == ShmemError::MapSizeZero
        } else {
            r matches Ok(u) && u == ()
        },
{
    if size == 0 {
        Err(ShmemError::MapSizeZero)
    } else {
        Ok(())
    }
}

/// The mathematical content of one process's handle to a mapping.
pub struct ShmemView {
    /// Whether this handle cleans up the link file on teardown.
    pub owner: bool,
    /// Whether this handle destroys the OS object on teardown.
    pub map_owner: bool,
    /// The OS-level unique id of the mapping.
    pub os_id: Seq<char>,
    /// The configured link-file path, if any.
    pub flink_path: Option<Seq<char>>,
    /// The actual size of the mapping as the backend reported it.
    pub len: nat,
}

/// One process's handle to the OS object backing a mapping: its id, its
/// actual size, and whether this process is responsible for destroying the
/// object (not merely unmapping it) on teardown.
pub struct MapData {
    owner: bool,
    unique_id: String,
    map_size: usize,
}

impl MapData {
    /// Transfers responsibility for destroying the OS object; returns
    /// whether this handle held it before.
    pub fn set_owner(&mut self, is_owner: bool) -> (r: bool)
        ensures
            r == old(self).spec_owner(),
            final(self).spec_owner() == is_owner,
            final(self).spec_unique_id() == old(self).spec_unique_id(),
            final(self).spec_map_size() == old(self).spec_map_size(),
    {
        let prev_val = self.owner;
        self.owner = is_owner;
        prev_val
    }

    /// Whether this handle destroys the OS object on teardown.
    pub closed spec fn spec_owner(&self) -> bool {
        self.owner
    }

    /// The OS-level unique id.
    pub closed spec fn spec_unique_id(&self) -> Seq<char> {
        self.unique_id@
    }

    /// The actual size of the mapping.
    pub closed spec fn spec_map_size(&self) -> nat {
        self.map_size as nat
    }
}

/// A live mapping: the configuration it was made from and the handle to the
/// OS object.  The raw byte region itself stays with the unverified backend
/// that mapped it; this handle carries everything the protocol decides on.
pub struct Shmem {
    config: ShmemConf,
    mapping: MapData,
}

impl View for Shmem {
    type V = ShmemView;

    closed spec fn view(&self) -> ShmemView {
        ShmemView {
            owner: self.config@.owner,
            map_owner: self.mapping.spec_owner(),
            os_id: self.mapping.spec_unique_id(),
            flink_path: self.config@.flink_path,
            len: self.mapping.spec_map_size(),
        }
    }
}

impl Shmem {
    /// Returns whether we created the mapping or not.
    pub fn is_owner(&self) -> (r: bool)
        ensures
            r == self@.owner,
    {
        self.config.owner
    }

    /// Gains or releases ownership of the mapping, on the configuration
    /// (link-file cleanup) and the OS handle (object destruction) together;
    /// returns the previous value so a caller can tell whether it already
    /// was the owner.
    ///
    /// At least one process should own a mapping, or nothing cleans it up.
    pub fn set_owner(&mut self, is_owner: bool) -> (r: bool)
        ensures
            r == old(self)@.owner,
            final(self)@ == (ShmemView { owner: is_owner, map_owner: is_owner, ..old(self)@ }),
    {
        self.mapping.set_owner(is_owner);
        let prev_val = self.config.owner;
        self.config.owner = is_owner;
        prev_val
    }

    /// Returns the OS unique identifier for the mapping.
    pub fn get_os_id(&self) -> (r: &str)
        ensures
            r@ == self@.os_id,
    {
        self.mapping.unique_id.as_str()
    }

    /// Returns the link-file path if one was configured.
    pub fn get_flink_path(&self) -> (r: Option<&String>)
        ensures
            match r {
                Some(p) => self@.flink_path matches Some(v) && p@ == v,
                None => self@.flink_path is None,
            },
    {
        self.config.flink_path.as_ref()
    }

    /// Returns the total size of the mapping.
    pub fn len(&self) -> (r: usize)
        ensures
            r as nat == self@.len,
    {
        self.mapping.map_size
    }

    /// Teardown decision for the OS object: destroy it exactly when this
    /// handle owns the mapping.
    pub fn owns_backing_object(&self) -> (r: bool)
        ensures
            r == self@.map_owner,
    {
        self.mapping.owner
    }

    /// Teardown decision for the link file: the path to delete, present
    /// exactly when this handle is the owner and a link was configured.
    pub fn flink_to_remove(&self) -> (r: Option<&String>)
        ensures
            r is Some <==> (self@.owner && self@.flink_path is Some),
            r matches Some(p) ==> (self@.flink_path matches Some(v) && p@ == v),
    {
        if self.config.owner {
            self.config.flink_path.as_ref()
        } else {
            None
        }
    }
}

} // verus!
