use vstd::prelude::*;
use std::path::PathBuf;
use std::sync::Arc;

verus! {

#[verifier::external_type_specification]
#[verifier::external_body]
pub struct ExPathBuf(std::path::PathBuf);

/// `PathBuf::clone` (std). Nothing is claimed of the copy: a path is opaque here, and the copy
/// may differ from the original in what spec equality sees (its allocation).
pub assume_specification[ <std::path::PathBuf as Clone>::clone ](p: &std::path::PathBuf) -> std::path::PathBuf;

/// Low-level file read service.
pub struct LucardFileReadService;

impl Default for LucardFileReadService {
    fn default() -> (r: Self)
        ensures
            r == LucardFileReadService,
    {
        LucardFileReadService
    }
}

impl LucardFileReadService {
    pub fn new() -> (r: Self)
        ensures
            r == LucardFileReadService,
    {
        LucardFileReadService
    }
}

/// Low-level file remove service
///
/// Provides primitive file deletion operations without snapshot coordination.
/// Snapshot management should be handled at the service layer.
#[derive(Default)]
pub struct LucardFileRemoveService;

impl LucardFileRemoveService {
    pub fn new() -> (r: Self)
        ensures
            r == LucardFileRemoveService,
    {
        LucardFileRemoveService
    }
}

/// Service that creates directories.
#[derive(Default)]
pub struct LucardCreateDirsService;

/// Service that answers questions about files (kind, existence, size).
pub struct LucardFileMetaService;

/// Service that connects to MCP servers.
#[derive(Clone, Copy)]
pub struct LucardMcpServer;

/// The environment the infrastructure runs in, as far as its users ask about it.
pub trait EnvironmentInfra {
    /// Whether the infrastructure runs in restricted mode.
    spec fn restricted(&self) -> bool;

    fn is_restricted(&self) -> (r: bool)
        ensures
            r == self.restricted(),
    ;
}

/// The infrastructure layer: the services that perform outside work, all built together from
/// the restricted flag and the working directory.
#[derive(Clone)]
pub struct LucardInfra {
    file_read_service: Arc<LucardFileReadService>,
    file_remove_service: Arc<LucardFileRemoveService>,
    file_meta_service: Arc<LucardFileMetaService>,
    create_dirs_service: Arc<LucardCreateDirsService>,
    mcp_server: LucardMcpServer,
    restricted: bool,
    cwd: PathBuf,
}

impl LucardInfra {
    /// The working directory the infrastructure was built for.
    pub closed spec fn working_dir(&self) -> PathBuf {
        self.cwd
    }

    pub fn new(restricted: bool, cwd: PathBuf) -> (r: Self)
        ensures
            r.restricted() == restricted,
            r.working_dir() == cwd,
    {
        let file_read_service = Arc::new(LucardFileReadService::new());
        let file_meta_service = Arc::new(LucardFileMetaService);
        LucardInfra {
            file_read_service,
            file_remove_service: Arc::new(LucardFileRemoveService::new()),
            file_meta_service,
            create_dirs_service: Arc::new(LucardCreateDirsService),
            mcp_server: LucardMcpServer,
            restricted,
            cwd,
        }
    }

    /// The working directory the infrastructure was built for.
    pub fn cwd(&self) -> (r: &PathBuf)
        ensures
            *r == self.working_dir(),
    {
        &self.cwd
    }
}

impl EnvironmentInfra for LucardInfra {
    closed spec fn restricted(&self) -> bool {
        self.restricted
    }

    fn is_restricted(&self) -> (r: bool) {
        self.restricted
    }
}

/// What the application layer asks of the environment.
pub trait EnvironmentService {
    /// Whether the application runs in restricted mode.
    spec fn restricted(&self) -> bool;

    fn is_restricted(&self) -> (r: bool)
        ensures
            r == self.restricted(),
    ;
}

/// The environment service, answering from the infrastructure it was given.
pub struct LucardEnvironmentService<F>(Arc<F>);

impl<F> LucardEnvironmentService<F> {
    /// The infrastructure the service answers from.
    pub closed spec fn infra(&self) -> Arc<F> {
        self.0
    }

    pub fn new(infra: Arc<F>) -> (r: Self)
        ensures
            r.infra() == infra,
    {
        LucardEnvironmentService(infra)
    }
}

impl<F: EnvironmentInfra> EnvironmentService for LucardEnvironmentService<F> {
    open spec fn restricted(&self) -> bool {
        (*self.infra()).restricted()
    }

    fn is_restricted(&self) -> (r: bool) {
        self.0.is_restricted()
    }
}

} // verus!
