use vstd::prelude::*;

verus! {

/// A remote music server the user has configured.
#[derive(Debug)]
pub struct ServerConfig {
    pub id: String,
    pub name: String,
    pub base_url: String,
    pub key_ref: String,
}

/// Whether a queued transfer goes up or down.
#[derive(Clone, Copy, Debug, PartialEq, Eq, Structural)]
pub enum QueueKind {
    Upload,
    Download,
}

/// One queued file transfer and how far it has got.
#[derive(Debug)]
pub struct QueueTask {
    pub id: String,
    pub kind: QueueKind,
    pub filename: String,
    pub progress: u8,
    pub status: String,
}

/// The application's shared state: the configured servers and the transfer queue.
#[derive(Debug)]
pub struct AppState {
    pub servers: Vec<ServerConfig>,
    pub queues: Vec<QueueTask>,
}

impl ServerConfig {
    /// An equal copy.
    pub fn duplicate(&self) -> (r: ServerConfig)
        ensures
            r == *self,
    {
        ServerConfig {
            id: self.id.clone(),
            name: self.name.clone(),
            base_url: self.base_url.clone(),
            key_ref: self.key_ref.clone(),
        }
    }
}

impl QueueTask {
    /// An equal copy.
    pub fn duplicate(&self) -> (r: QueueTask)
        ensures
            r == *self,
    {
        QueueTask {
            id: self.id.clone(),
            kind: self.kind,
            filename: self.filename.clone(),
            progress: self.progress,
            status: self.status.clone(),
        }
    }
}

impl AppState {
    /// No servers and an empty queue.
    pub fn new() -> (r: AppState)
        ensures
            r.servers@.len() == 0,
            r.queues@.len() == 0,
    {
        AppState { servers: Vec::new(), queues: Vec::new() }
    }
}

/// A copy of a list of servers.
pub fn copy_servers(servers: &Vec<ServerConfig>) -> (r: Vec<ServerConfig>)
    ensures
        r@ == servers@,
{
    let mut out: Vec<ServerConfig> = Vec::with_capacity(servers.len());
    let mut i: usize = 0;
    while i < servers.len()
        invariant
            i <= servers@.len(),
            out@ == servers@.subrange(0, i as int),
        decreases servers@.len() - i,
    {
        out.push(servers[i].duplicate());
        i = i + 1;
        proof {
            assert(out@ =~= servers@.subrange(0, i as int));
        }
    }
    proof {
        assert(servers@.subrange(0, servers@.len() as int) =~= servers@);
    }
    out
}

/// A copy of a list of queued tasks.
pub fn copy_tasks(tasks: &Vec<QueueTask>) -> (r: Vec<QueueTask>)
    ensures
        r@ == tasks@,
{
    let mut out: Vec<QueueTask> = Vec::with_capacity(tasks.len());
    let mut i: usize = 0;
    while i < tasks.len()
        invariant
            i <= tasks@.len(),
            out@ == tasks@.subrange(0, i as int),
        decreases tasks@.len() - i,
    {
        out.push(tasks[i].duplicate());
        i = i + 1;
        proof {
            assert(out@ =~= tasks@.subrange(0, i as int));
        }
    }
    proof {
        assert(tasks@.subrange(0, tasks@.len() as int) =~= tasks@);
    }
    out
}

} // verus!
