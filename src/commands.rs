use vstd::prelude::*;
use vstd::string::StringExecFns;

use crate::app_state::{copy_servers, copy_tasks, AppState, QueueKind, QueueTask, ServerConfig};

verus! {

/// A track as listed by a search or a playlist.
#[derive(Debug)]
pub struct TrackSummary {
    pub id: String,
    pub title: String,
    pub artist: String,
    pub album: String,
}

/// A playlist and its tracks.
#[derive(Debug)]
pub struct PlaylistSummary {
    pub id: String,
    pub name: String,
    pub tracks: Vec<TrackSummary>,
}

/// One entry of a remote directory listing.
#[derive(Debug)]
pub struct FileEntry {
    pub name: String,
    pub kind: String,
    pub size: usize,
}

/// Whether the local catalogue cache is usable, and when it was last refreshed.
#[derive(Debug)]
pub struct CacheStatus {
    pub cache_ready: bool,
    pub last_refresh: String,
}

/// The outcome of writing an anchor tag into an audio file.
#[derive(Debug)]
pub struct TagProcessResult {
    pub success: bool,
    pub error_message: Option<String>,
    pub app_anchor_id: Option<String>,
    pub modified_data: Option<Vec<u8>>,
}

/// `c` is a lower-case hexadecimal digit.
pub open spec fn is_lower_hex(c: char) -> bool {
    ('0' <= c && c <= '9') || ('a' <= c && c <= 'f')
}

/// `s` is the hyphenated lower-case text of a version-4 UUID: 36 characters, hyphens
/// at 8, 13, 18 and 23, hexadecimal digits elsewhere, the version digit `4` at 14 and a
/// variant digit of `8`, `9`, `a` or `b` at 19.
pub open spec fn is_v4_text(s: Seq<char>) -> bool {
    &&& s.len() == 36
    &&& forall|i: int|
        0 <= i < 36 ==> if i == 8 || i == 13 || i == 18 || i == 23 {
            #[trigger] s[i] == '-'
        } else {
            is_lower_hex(s[i])
        }
    &&& s[14] == '4'
    &&& (s[19] == '8' || s[19] == '9' || s[19] == 'a' || s[19] == 'b')
}

/// Relies on `uuid::Uuid::new_v4`, which sets the version and variant bits of random
/// bits, and on the hyphenated lower-case `Display` form of a UUID. The value is random.
#[verifier::external_body]
fn new_id() -> (r: String)
    ensures
        is_v4_text(r@),
{
    uuid::Uuid::new_v4().to_string()
}

/// Adds a server under the given identifier and returns the servers.
pub fn add_server_with_id(
    app_state: &mut AppState,
    id: String,
    name: String,
    base_url: String,
    key_ref: String,
) -> (r: Vec<ServerConfig>)
    ensures
        final(app_state).servers@ == old(app_state).servers@.push(
            (ServerConfig { id, name, base_url, key_ref }),
        ),
        final(app_state).queues@ == old(app_state).queues@,
        r@ == final(app_state).servers@,
{
    app_state.servers.push(ServerConfig { id, name, base_url, key_ref });
    copy_servers(&app_state.servers)
}

/// Adds a server under a fresh random identifier and returns the servers.
pub fn add_server(app_state: &mut AppState, name: String, base_url: String, key_ref: String) -> (r:
    Vec<ServerConfig>)
    ensures
        final(app_state).servers@.len() == old(app_state).servers@.len() + 1,
        final(app_state).servers@.drop_last() == old(app_state).servers@,
        is_v4_text(final(app_state).servers@.last().id@),
        final(app_state).servers@.last().name == name,
        final(app_state).servers@.last().base_url == base_url,
        final(app_state).servers@.last().key_ref == key_ref,
        final(app_state).queues@ == old(app_state).queues@,
        r@ == final(app_state).servers@,
{
    let id = new_id();
    let r = add_server_with_id(app_state, id, name, base_url, key_ref);
    proof {
        assert(app_state.servers@.drop_last() =~= old(app_state).servers@);
    }
    r
}

/// The configured servers.
pub fn list_servers(app_state: &AppState) -> (r: Vec<ServerConfig>)
    ensures
        r@ == app_state.servers@,
{
    copy_servers(&app_state.servers)
}

/// The server does not have identifier `id`.
pub open spec fn server_kept(id: Seq<char>) -> spec_fn(ServerConfig) -> bool {
    |s: ServerConfig| s.id@ != id
}

/// Removes every server with identifier `id` and returns the rest, in order.
pub fn remove_server(app_state: &mut AppState, id: String) -> (r: Vec<ServerConfig>)
    ensures
        final(app_state).servers@ == old(app_state).servers@.filter(server_kept(id@)),
        final(app_state).queues@ == old(app_state).queues@,
        r@ == final(app_state).servers@,
{
    let ghost before = app_state.servers@;
    let mut kept: Vec<ServerConfig> = Vec::new();
    let mut i: usize = 0;
    while i < app_state.servers.len()
        invariant
            app_state.servers@ == before,
            i <= before.len(),
            kept@ == before.subrange(0, i as int).filter(server_kept(id@)),
        decreases before.len() - i,
    {
        let s = app_state.servers[i].duplicate();
        proof {
            let next = before.subrange(0, i + 1);
            assert(next.drop_last() =~= before.subrange(0, i as int));
            assert(next.last() == before[i as int]);
            reveal(Seq::filter);
        }
        if s.id != id {
            kept.push(s);
        }
        i = i + 1;
    }
    proof {
        assert(before.subrange(0, before.len() as int) =~= before);
    }
    app_state.servers = kept;
    copy_servers(&app_state.servers)
}

/// `s` with every trailing `c` removed.
pub open spec fn trim_end_char(s: Seq<char>, c: char) -> Seq<char>
    decreases s.len(),
{
    if s.len() > 0 && s.last() == c {
        trim_end_char(s.drop_last(), c)
    } else {
        s
    }
}

/// Relies on `str::trim_end_matches` with a character pattern: every trailing
/// occurrence is removed.
#[verifier::external_body]
fn trim_trailing_slashes(s: &str) -> (r: String)
    ensures
        r@ == trim_end_char(s@, '/'),
{
    s.trim_end_matches('/').to_string()
}

/// The streaming address of a track on a server.
pub fn navidrome_stream_url(base_url: String, track_id: String) -> (r: String)
    ensures
        r@ == trim_end_char(base_url@, '/') + "/rest/stream.view?id="@ + track_id@ + "&token=stub"@,
{
    let mut url = trim_trailing_slashes(base_url.as_str());
    url.append("/rest/stream.view?id=");
    url.append(track_id.as_str());
    url.append("&token=stub");
    url
}

/// Tracks matching a keyword. The catalogue is not connected yet: the answer is one
/// sample track named after the keyword.
pub fn navidrome_search(keyword: String) -> (r: Vec<TrackSummary>)
    ensures
        r@.len() == 1,
        is_v4_text(r@[0].id@),
        r@[0].title@ == "示例歌曲："@ + keyword@,
        r@[0].artist@ == "示例歌手"@,
        r@[0].album@ == "示例专辑"@,
{
    let mut title = "示例歌曲：".to_owned();
    title.append(keyword.as_str());
    let track = TrackSummary {
        id: new_id(),
        title,
        artist: "示例歌手".to_owned(),
        album: "示例专辑".to_owned(),
    };
    let mut r: Vec<TrackSummary> = Vec::new();
    r.push(track);
    r
}

/// A playlist by name. The catalogue is not connected yet: the answer is a placeholder
/// playlist with one placeholder track.
pub fn navidrome_playlist(name: String) -> (r: PlaylistSummary)
    ensures
        is_v4_text(r.id@),
        r.name@ == name@ + "（占位歌单）"@,
        r.tracks@.len() == 1,
        is_v4_text(r.tracks@[0].id@),
        r.tracks@[0].title@ == "占位曲目"@,
        r.tracks@[0].artist@ == "示例歌手"@,
        r.tracks@[0].album@ == "示例专辑"@,
{
    let id = new_id();
    let mut full_name = name;
    full_name.append("（占位歌单）");
    let track = TrackSummary {
        id: new_id(),
        title: "占位曲目".to_owned(),
        artist: "示例歌手".to_owned(),
        album: "示例专辑".to_owned(),
    };
    let mut tracks: Vec<TrackSummary> = Vec::new();
    tracks.push(track);
    PlaylistSummary { id, name: full_name, tracks }
}

/// A directory listing. The remote store is not connected yet: the answer is the
/// directory itself (the root when no path is given) and one sample file.
pub fn openlist_browse(path: Option<String>) -> (r: Vec<FileEntry>)
    ensures
        r@.len() == 2,
        r@[0].name@ == match path {
            Some(p) => p@,
            None => "/"@,
        },
        r@[0].kind@ == "directory"@,
        r@[0].size == 0,
        r@[1].name@ == "示例音频.flac"@,
        r@[1].kind@ == "file"@,
        r@[1].size == 1234,
{
    let name = match path {
        Some(p) => p,
        None => "/".to_owned(),
    };
    let mut r: Vec<FileEntry> = Vec::new();
    r.push(FileEntry { name, kind: "directory".to_owned(), size: 0 });
    r.push(FileEntry { name: "示例音频.flac".to_owned(), kind: "file".to_owned(), size: 1234 });
    r
}

/// Queues a transfer under the given identifier and returns the new task.
pub fn enqueue_with_id(app_state: &mut AppState, id: String, kind: QueueKind, filename: String) -> (r:
    QueueTask)
    ensures
        final(app_state).queues@.len() == old(app_state).queues@.len() + 1,
        final(app_state).queues@.drop_last() == old(app_state).queues@,
        final(app_state).queues@.last() == r,
        final(app_state).servers@ == old(app_state).servers@,
        r.id == id,
        r.kind == kind,
        r.filename == filename,
        r.progress == (if kind == QueueKind::Upload { 12u8 } else { 0u8 }),
        r.status@ == (if kind == QueueKind::Upload { "等待上传"@ } else { "等待下载"@ }),
{
    let task = match kind {
        QueueKind::Upload => QueueTask {
            id,
            kind,
            filename,
            progress: 12,
            status: "等待上传".to_owned(),
        },
        QueueKind::Download => QueueTask {
            id,
            kind,
            filename,
            progress: 0,
            status: "等待下载".to_owned(),
        },
    };
    let r = task.duplicate();
    app_state.queues.push(task);
    proof {
        assert(app_state.queues@.drop_last() =~= old(app_state).queues@);
    }
    r
}

/// Queues an upload under a fresh random identifier and returns the new task.
pub fn openlist_upload(app_state: &mut AppState, filename: String) -> (r: QueueTask)
    ensures
        final(app_state).queues@.len() == old(app_state).queues@.len() + 1,
        final(app_state).queues@.drop_last() == old(app_state).queues@,
        final(app_state).queues@.last() == r,
        final(app_state).servers@ == old(app_state).servers@,
        is_v4_text(r.id@),
        r.kind == QueueKind::Upload,
        r.filename == filename,
        r.progress == 12,
        r.status@ == "等待上传"@,
{
    let id = new_id();
    enqueue_with_id(app_state, id, QueueKind::Upload, filename)
}

/// Queues a download under a fresh random identifier and returns the new task.
pub fn openlist_download(app_state: &mut AppState, filename: String) -> (r: QueueTask)
    ensures
        final(app_state).queues@.len() == old(app_state).queues@.len() + 1,
        final(app_state).queues@.drop_last() == old(app_state).queues@,
        final(app_state).queues@.last() == r,
        final(app_state).servers@ == old(app_state).servers@,
        is_v4_text(r.id@),
        r.kind == QueueKind::Download,
        r.filename == filename,
        r.progress == 0,
        r.status@ == "等待下载"@,
{
    let id = new_id();
    enqueue_with_id(app_state, id, QueueKind::Download, filename)
}

/// The queued transfers.
pub fn queue_status(app_state: &AppState) -> (r: Vec<QueueTask>)
    ensures
        r@ == app_state.queues@,
{
    copy_tasks(&app_state.queues)
}

/// Every task with identifier `id` takes the status `status`; the others are unchanged.
pub open spec fn statuses_set(before: Seq<QueueTask>, after: Seq<QueueTask>, id: Seq<char>, status: Seq<char>) -> bool {
    &&& after.len() == before.len()
    &&& forall|i: int|
        0 <= i < before.len() ==> if before[i].id@ == id {
            &&& (#[trigger] after[i]).id == before[i].id
            &&& after[i].kind == before[i].kind
            &&& after[i].filename == before[i].filename
            &&& after[i].progress == before[i].progress
            &&& after[i].status@ == status
        } else {
            after[i] == before[i]
        }
}

fn set_status(app_state: &mut AppState, id: &String, status: &str)
    ensures
        statuses_set(old(app_state).queues@, final(app_state).queues@, id@, status@),
        final(app_state).servers@ == old(app_state).servers@,
{
    let ghost before = app_state.queues@;
    let mut i: usize = 0;
    while i < app_state.queues.len()
        invariant
            app_state.queues@.len() == before.len(),
            app_state.servers@ == old(app_state).servers@,
            before == old(app_state).queues@,
            i <= before.len(),
            forall|k: int| i <= k < before.len() ==> #[trigger] app_state.queues@[k] == before[k],
            forall|k: int|
                0 <= k < i ==> if before[k].id@ == id@ {
                    &&& (#[trigger] app_state.queues@[k]).id == before[k].id
                    &&& app_state.queues@[k].kind == before[k].kind
                    &&& app_state.queues@[k].filename == before[k].filename
                    &&& app_state.queues@[k].progress == before[k].progress
                    &&& app_state.queues@[k].status@ == status@
                } else {
                    app_state.queues@[k] == before[k]
                },
        decreases before.len() - i,
    {
        if app_state.queues[i].id == *id {
            let mut t = app_state.queues[i].duplicate();
            t.status = status.to_owned();
            app_state.queues.set(i, t);
        }
        i = i + 1;
    }
}

/// Marks every task with identifier `id` as paused and returns the queue.
pub fn queue_pause(app_state: &mut AppState, id: String) -> (r: Vec<QueueTask>)
    ensures
        statuses_set(old(app_state).queues@, final(app_state).queues@, id@, "已暂停"@),
        final(app_state).servers@ == old(app_state).servers@,
        r@ == final(app_state).queues@,
{
    set_status(app_state, &id, "已暂停");
    copy_tasks(&app_state.queues)
}

/// Marks every task with identifier `id` as running and returns the queue.
pub fn queue_resume(app_state: &mut AppState, id: String) -> (r: Vec<QueueTask>)
    ensures
        statuses_set(old(app_state).queues@, final(app_state).queues@, id@, "运行中"@),
        final(app_state).servers@ == old(app_state).servers@,
        r@ == final(app_state).queues@,
{
    set_status(app_state, &id, "运行中");
    copy_tasks(&app_state.queues)
}

/// The task does not have identifier `id`.
pub open spec fn task_kept(id: Seq<char>) -> spec_fn(QueueTask) -> bool {
    |t: QueueTask| t.id@ != id
}

/// Removes every task with identifier `id` and returns the rest, in order.
pub fn queue_cancel(app_state: &mut AppState, id: String) -> (r: Vec<QueueTask>)
    ensures
        final(app_state).queues@ == old(app_state).queues@.filter(task_kept(id@)),
        final(app_state).servers@ == old(app_state).servers@,
        r@ == final(app_state).queues@,
{
    let ghost before = app_state.queues@;
    let mut kept: Vec<QueueTask> = Vec::new();
    let mut i: usize = 0;
    while i < app_state.queues.len()
        invariant
            app_state.queues@ == before,
            i <= before.len(),
            kept@ == before.subrange(0, i as int).filter(task_kept(id@)),
        decreases before.len() - i,
    {
        let t = app_state.queues[i].duplicate();
        proof {
            let next = before.subrange(0, i + 1);
            assert(next.drop_last() =~= before.subrange(0, i as int));
            assert(next.last() == before[i as int]);
            reveal(Seq::filter);
        }
        if t.id != id {
            kept.push(t);
        }
        i = i + 1;
    }
    proof {
        assert(before.subrange(0, before.len() as int) =~= before);
    }
    app_state.queues = kept;
    copy_tasks(&app_state.queues)
}

/// The cache status before any synchronisation.
pub fn cache_fetch() -> (r: CacheStatus)
    ensures
        !r.cache_ready,
        r.last_refresh@ == "尚未同步"@,
{
    CacheStatus { cache_ready: false, last_refresh: "尚未同步".to_owned() }
}

/// The cache status once a refresh has been asked for.
pub fn cache_refresh() -> (r: CacheStatus)
    ensures
        r.cache_ready,
        r.last_refresh@ == "已触发刷新"@,
{
    CacheStatus { cache_ready: true, last_refresh: "已触发刷新".to_owned() }
}

/// Clearing downloaded songs is done by the front end; this only says so.
pub fn clear_downloaded_songs() -> (r: Result<String, String>)
    ensures
        r matches Ok(s) && s@ == "此功能已迁移到前端实现"@,
{
    Ok("此功能已迁移到前端实现".to_owned())
}

/// How an audio file's extension stands towards anchor tagging.
#[derive(Clone, Copy, Debug, PartialEq, Eq, Structural)]
pub enum TagSupport {
    /// FLAC, MP3, M4A or OGG: the tag can be written.
    Writable,
    /// WAV or AAC: recognised, but tags cannot be written to it yet.
    NotYet,
    /// Anything else, or no extension.
    Unsupported,
}

/// The support for anchor tags of a file with this extension.
pub open spec fn tag_support_of(extension: Option<Seq<char>>) -> TagSupport {
    match extension {
        Some(e) => if e == "flac"@ || e == "mp3"@ || e == "m4a"@ || e == "ogg"@ {
            TagSupport::Writable
        } else if e == "wav"@ || e == "aac"@ {
            TagSupport::NotYet
        } else {
            TagSupport::Unsupported
        },
        None => TagSupport::Unsupported,
    }
}

/// Decides whether an anchor tag can be written to a file with this extension
/// (compared exactly, lower case).
pub fn tag_support(extension: Option<String>) -> (r: TagSupport)
    ensures
        r == tag_support_of(
            match extension {
                Some(e) => Some(e@),
                None => None,
            },
        ),
{
    match extension {
        Some(e) => {
            if e == "flac".to_owned() || e == "mp3".to_owned() || e == "m4a".to_owned() || e
                == "ogg".to_owned() {
                TagSupport::Writable
            } else if e == "wav".to_owned() || e == "aac".to_owned() {
                TagSupport::NotYet
            } else {
                TagSupport::Unsupported
            }
        },
        None => TagSupport::Unsupported,
    }
}

/// The report of an anchor-tag request for a file with `extension`, given the support
/// for it and, when the tag can be written, what writing it gave (the new file bytes,
/// or the reason it failed).
pub fn tag_process_result(
    support: TagSupport,
    extension: String,
    anchor_id: String,
    written: Option<Result<Vec<u8>, String>>,
) -> (r: TagProcessResult)
    requires
        support == TagSupport::Writable ==> written is Some,
    ensures
        r.app_anchor_id == Some(anchor_id),
        r.success == (support == TagSupport::Writable && written matches Some(Ok(_))),
        r.success ==> r.error_message is None && r.modified_data == match written {
            Some(Ok(d)) => Some(d),
            _ => None::<Vec<u8>>,
        },
        !r.success ==> r.modified_data is None && r.error_message is Some,
        support == TagSupport::Writable ==> match written {
            Some(Err(e)) => r.error_message.unwrap()@ == extension@ + "文件标签写入失败: "@ + e@,
            _ => true,
        },
        support == TagSupport::NotYet ==> r.error_message.unwrap()@ == extension@
            + "格式暂不支持标签写入，请转换为FLAC/MP3/M4A/OGG格式"@,
        support == TagSupport::Unsupported ==> r.error_message.unwrap()@
            == "不支持的音频格式，目前支持FLAC、MP3、M4A、OGG"@,
{
    match support {
        TagSupport::Writable => match written {
            Some(Ok(data)) => TagProcessResult {
                success: true,
                error_message: None,
                app_anchor_id: Some(anchor_id),
                modified_data: Some(data),
            },
            Some(Err(e)) => {
                let mut message = extension;
                message.append("文件标签写入失败: ");
                message.append(e.as_str());
                TagProcessResult {
                    success: false,
                    error_message: Some(message),
                    app_anchor_id: Some(anchor_id),
                    modified_data: None,
                }
            },
            None => TagProcessResult {
                success: false,
                error_message: Some("不支持的音频格式，目前支持FLAC、MP3、M4A、OGG".to_owned()),
                app_anchor_id: Some(anchor_id),
                modified_data: None,
            },
        },
        TagSupport::NotYet => {
            let mut message = extension;
            message.append("格式暂不支持标签写入，请转换为FLAC/MP3/M4A/OGG格式");
            TagProcessResult {
                success: false,
                error_message: Some(message),
                app_anchor_id: Some(anchor_id),
                modified_data: None,
            }
        },
        TagSupport::Unsupported => TagProcessResult {
            success: false,
            error_message: Some("不支持的音频格式，目前支持FLAC、MP3、M4A、OGG".to_owned()),
            app_anchor_id: Some(anchor_id),
            modified_data: None,
        },
    }
}

} // verus!
