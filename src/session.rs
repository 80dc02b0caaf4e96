use vstd::prelude::*;
use crate::decimal::{decimal, to_decimal};
use crate::errors::UploadError;
use crate::identity::{FileIdentity, IdentityModel, identity_wf, CHUNK_SIZE};
use crate::query::{ParamText, QueryParams, add_qs_to_url, url_with_query, with_param};

verus! {

/// Whether the text is an absolute URL, as the HTTP client's URL parser decides.
pub uninterp spec fn parses_as_url(s: Seq<char>) -> bool;

/// Relies on reqwest::Url::parse (the url crate's parser): whether the text parses
/// as an absolute URL. The answer depends on the text alone.
#[verifier::external_body]
fn url_parses(s: &str) -> (r: bool)
    ensures
        r == parses_as_url(s@),
{
    reqwest::Url::parse(s).is_ok()
}

/// The query parameters of the probe for chunk `i`.
pub open spec fn probe_params(i: nat, id: IdentityModel) -> Seq<ParamText> {
    seq![
        ("resumableChunkNumber"@, decimal(i)),
        ("resumableFilename"@, id.filename),
        ("resumableIdentifier"@, id.identifier),
    ]
}

/// The query parameters of the upload of chunk `i`.
pub open spec fn upload_params(i: nat, id: IdentityModel) -> Seq<ParamText> {
    seq![
        ("resumableChunkNumber"@, decimal(i)),
        ("resumableFilename"@, id.filename),
        ("resumableChunkSize"@, decimal(CHUNK_SIZE as nat)),
        ("resumableTotalSize"@, decimal(id.total_size)),
        ("resumableIdentifier"@, id.identifier),
    ]
}

/// How many bytes the next upload sends, once `sent` bytes have been sent: a
/// whole chunk, or what is left of the file when that is less.
pub open spec fn chunk_len(total: nat, sent: nat) -> nat {
    if total - sent < CHUNK_SIZE as nat {
        (total - sent) as nat
    } else {
        CHUNK_SIZE as nat
    }
}

/// Where an upload run stands, as plain values.
pub enum PhaseModel {
    Probing(nat),
    Uploading(nat),
    Done(Option<Seq<char>>),
    Failed(Seq<char>),
}

/// Why a run stopped short.
pub enum FailureModel {
    Rejected(Seq<char>),
    InvalidUrl(Seq<char>),
}

/// What the caller is asked to do next, as plain values.
pub enum ActionModel {
    Probe { url: Seq<char>, chunk: nat },
    Upload { url: Seq<char>, chunk: nat, length: nat },
    Finish { result: Option<Seq<char>> },
    Abort { error: FailureModel },
}

/// An upload run, as plain values.
pub struct SessionModel {
    pub endpoint: Seq<char>,
    pub identity: IdentityModel,
    pub phase: PhaseModel,
    pub sent: nat,
}

pub open spec fn session_wf(s: SessionModel) -> bool {
    &&& identity_wf(s.identity)
    &&& s.sent <= s.identity.total_size
    &&& s.identity.total_size <= u64::MAX
    &&& match s.phase {
        PhaseModel::Probing(i) => 1 <= i <= s.identity.chunk_count,
        PhaseModel::Uploading(i) => 1 <= i <= s.identity.chunk_count,
        _ => true,
    }
}

/// The phase after a probe of the current chunk was answered with `status`:
/// 200, the server has the chunk, go on with the next or finish without a
/// result after the last; 400, upload it; anything else, fail with the body.
pub open spec fn after_probe(p: PhaseModel, count: nat, status: u16, body: Seq<char>) -> PhaseModel {
    match p {
        PhaseModel::Probing(i) => if status == 200 {
            if i >= count {
                PhaseModel::Done(None)
            } else {
                PhaseModel::Probing(i + 1)
            }
        } else if status == 400 {
            PhaseModel::Uploading(i)
        } else {
            PhaseModel::Failed(body)
        },
        _ => p,
    }
}

/// The phase after an upload of the current chunk was answered with `status`:
/// 200, go on with the next chunk, or finish with the body as the result after
/// the last; anything else, fail with the body.
pub open spec fn after_upload(p: PhaseModel, count: nat, status: u16, body: Seq<char>) -> PhaseModel {
    match p {
        PhaseModel::Uploading(i) => if status == 200 {
            if i >= count {
                PhaseModel::Done(Some(body))
            } else {
                PhaseModel::Probing(i + 1)
            }
        } else {
            PhaseModel::Failed(body)
        },
        _ => p,
    }
}

/// The run after a probe was answered.
pub open spec fn probed(s: SessionModel, status: u16, body: Seq<char>) -> SessionModel {
    SessionModel { phase: after_probe(s.phase, s.identity.chunk_count, status, body), ..s }
}

/// The run after an upload was answered; a chunk that was accepted counts as sent.
pub open spec fn uploaded(s: SessionModel, status: u16, body: Seq<char>) -> SessionModel {
    SessionModel {
        phase: after_upload(s.phase, s.identity.chunk_count, status, body),
        sent: if s.phase is Uploading && status == 200 {
            s.sent + chunk_len(s.identity.total_size, s.sent)
        } else {
            s.sent
        },
        ..s
    }
}

/// What a run asks for next.
pub open spec fn action_of(s: SessionModel) -> ActionModel {
    match s.phase {
        PhaseModel::Probing(i) => {
            let url = url_with_query(s.endpoint, probe_params(i, s.identity));
            if parses_as_url(url) {
                ActionModel::Probe { url, chunk: i }
            } else {
                ActionModel::Abort { error: FailureModel::InvalidUrl(url) }
            }
        },
        PhaseModel::Uploading(i) => {
            let url = url_with_query(s.endpoint, upload_params(i, s.identity));
            if parses_as_url(url) {
                ActionModel::Upload {
                    url,
                    chunk: i,
                    length: chunk_len(s.identity.total_size, s.sent),
                }
            } else {
                ActionModel::Abort { error: FailureModel::InvalidUrl(url) }
            }
        },
        PhaseModel::Done(result) => ActionModel::Finish { result },
        PhaseModel::Failed(message) => ActionModel::Abort { error: FailureModel::Rejected(message) },
    }
}

/// What the answer to a probe says of the chunk.
pub enum ProbeOutcome {
    /// 200: the server holds the chunk.
    Exists,
    /// 400: the server wants the chunk.
    NeedsUpload,
    /// Any other status; the error carries the response body.
    Fatal(UploadError),
}

/// Classifies the answer to a probe by its status.
pub fn classify_probe(status: u16, body: String) -> (r: ProbeOutcome)
    ensures
        status == 200 <==> r is Exists,
        status == 400 <==> r is NeedsUpload,
        (status != 200 && status != 400) ==> (match r {
            ProbeOutcome::Fatal(e) => e.message@ == body@,
            _ => false,
        }),
{
    if status == 200 {
        ProbeOutcome::Exists
    } else if status == 400 {
        ProbeOutcome::NeedsUpload
    } else {
        ProbeOutcome::Fatal(UploadError::new(body))
    }
}

/// The result of an upload answered with `status`: the response body when the
/// status is 200, else an error that carries the body.
pub fn upload_result(status: u16, body: String) -> (r: Result<String, UploadError>)
    ensures
        status == 200 ==> (match r {
            Ok(b) => b@ == body@,
            Err(_) => false,
        }),
        status != 200 ==> (match r {
            Err(e) => e.message@ == body@,
            Ok(_) => false,
        }),
{
    if status != 200 {
        return Err(UploadError::new(body));
    }
    Ok(body)
}

/// Where an upload run stands.
pub enum Phase {
    /// Chunk `i` is to be probed.
    Probing(u64),
    /// Chunk `i` is to be read and uploaded.
    Uploading(u64),
    /// Every chunk is on the server; the result is the body of the last
    /// chunk's upload, when the last chunk had to be uploaded.
    Done(Option<String>),
    /// The server answered with an unexpected status.
    Failed(UploadError),
}

impl View for Phase {
    type V = PhaseModel;

    open spec fn view(&self) -> PhaseModel {
        match self {
            Phase::Probing(i) => PhaseModel::Probing(*i as nat),
            Phase::Uploading(i) => PhaseModel::Uploading(*i as nat),
            Phase::Done(r) => PhaseModel::Done(
                match r {
                    Some(b) => Some(b@),
                    None => None,
                },
            ),
            Phase::Failed(e) => PhaseModel::Failed(e.message@),
        }
    }
}

/// Why a run stopped short.
#[derive(Debug)]
pub enum Failure {
    /// The server answered a probe or an upload with an unexpected status.
    Rejected(UploadError),
    /// A request URL does not parse.
    InvalidUrl(String),
}

impl View for Failure {
    type V = FailureModel;

    open spec fn view(&self) -> FailureModel {
        match self {
            Failure::Rejected(e) => FailureModel::Rejected(e.message@),
            Failure::InvalidUrl(u) => FailureModel::InvalidUrl(u@),
        }
    }
}

/// What the caller is asked to do next.
pub enum Action {
    /// Ask the server whether it holds chunk `chunk`: a GET of `url`.
    Probe { url: String, chunk: u64 },
    /// Read the next `length` bytes of the file and POST them to `url` as
    /// chunk `chunk`.
    Upload { url: String, chunk: u64, length: u64 },
    /// The run is over and succeeded.
    Finish { result: Option<String> },
    /// The run is over and failed.
    Abort { error: Failure },
}

impl View for Action {
    type V = ActionModel;

    open spec fn view(&self) -> ActionModel {
        match self {
            Action::Probe { url, chunk } => ActionModel::Probe { url: url@, chunk: *chunk as nat },
            Action::Upload { url, chunk, length } => ActionModel::Upload {
                url: url@,
                chunk: *chunk as nat,
                length: *length as nat,
            },
            Action::Finish { result } => ActionModel::Finish {
                result: match result {
                    Some(b) => Some(b@),
                    None => None,
                },
            },
            Action::Abort { error } => ActionModel::Abort { error: error@ },
        }
    }
}

/// The decisions of one upload run: which chunk to probe, which to upload and
/// how many bytes of it, and when the run is over. The caller performs each
/// request and reports the server's answer.
pub struct UploadSession {
    endpoint: String,
    identity: FileIdentity,
    phase: Phase,
    sent: u64,
}

impl View for UploadSession {
    type V = SessionModel;

    closed spec fn view(&self) -> SessionModel {
        SessionModel {
            endpoint: self.endpoint@,
            identity: self.identity@,
            phase: self.phase@,
            sent: self.sent as nat,
        }
    }
}

fn probe_query(identity: &FileIdentity, i: u64) -> (r: QueryParams)
    ensures
        r.wf(),
        r@ == probe_params(i as nat, identity@),
{
    proof {
        reveal_strlit("resumableChunkNumber");
        reveal_strlit("resumableFilename");
        reveal_strlit("resumableIdentifier");
    }
    let ghost ps = probe_params(i as nat, identity@);
    let mut qs = QueryParams::new();
    qs.insert(String::from_str("resumableChunkNumber"), to_decimal(i));
    assert(qs@ =~= ps.take(1));
    assert(ps[0].0.len() != ps[1].0.len());
    qs.insert(String::from_str("resumableFilename"), String::from_str(identity.filename()));
    assert(qs@ =~= ps.take(2));
    qs.insert(String::from_str("resumableIdentifier"), String::from_str(identity.identifier()));
    assert(qs@ =~= probe_params(i as nat, identity@));
    qs
}

fn upload_query(identity: &FileIdentity, i: u64) -> (r: QueryParams)
    ensures
        r.wf(),
        r@ == upload_params(i as nat, identity@),
{
    proof {
        reveal_strlit("resumableChunkNumber");
        reveal_strlit("resumableFilename");
        reveal_strlit("resumableChunkSize");
        reveal_strlit("resumableTotalSize");
        reveal_strlit("resumableIdentifier");
    }
    let ghost ps = upload_params(i as nat, identity@);
    let mut qs = QueryParams::new();
    qs.insert(String::from_str("resumableChunkNumber"), to_decimal(i));
    assert(qs@ =~= ps.take(1));
    assert(ps[0].0.len() != ps[1].0.len());
    qs.insert(String::from_str("resumableFilename"), String::from_str(identity.filename()));
    assert(qs@ =~= ps.take(2));
    assert(ps[0].0.len() != ps[2].0.len() && ps[1].0.len() != ps[2].0.len());
    qs.insert(String::from_str("resumableChunkSize"), to_decimal(CHUNK_SIZE));
    assert(qs@ =~= ps.take(3));
    assert(ps[0].0.len() != ps[3].0.len() && ps[1].0.len() != ps[3].0.len());
    assert(ps[2].0[9] != ps[3].0[9]);
    qs.insert(String::from_str("resumableTotalSize"), to_decimal(identity.total_size()));
    assert(qs@ =~= ps.take(4));
    assert(ps[0].0.len() != ps[4].0.len() && ps[1].0.len() != ps[4].0.len());
    assert(ps[2].0.len() != ps[4].0.len() && ps[3].0.len() != ps[4].0.len());
    qs.insert(String::from_str("resumableIdentifier"), String::from_str(identity.identifier()));
    assert(qs@ =~= upload_params(i as nat, identity@));
    qs
}

impl UploadSession {
    pub open spec fn wf(&self) -> bool {
        session_wf(self@)
    }

    /// A run that uploads the file with this identity to `endpoint`, starting
    /// with the probe of chunk 1, with nothing sent yet.
    pub fn new(endpoint: String, identity: FileIdentity) -> (r: Self)
        requires
            identity.wf(),
        ensures
            r.wf(),
            r@.endpoint == endpoint@,
            r@.identity == identity@,
            r@.phase == PhaseModel::Probing(1),
            r@.sent == 0,
    {
        UploadSession { endpoint, identity, phase: Phase::Probing(1), sent: 0 }
    }

    pub fn identity(&self) -> (r: &FileIdentity)
        ensures
            r@ == self@.identity,
    {
        &self.identity
    }

    pub fn phase(&self) -> (r: &Phase)
        ensures
            r@ == self@.phase,
    {
        &self.phase
    }

    /// The number of bytes of the file that uploads have sent so far.
    pub fn sent(&self) -> (r: u64)
        ensures
            r == self@.sent,
    {
        self.sent
    }

    /// Whether the run waits for the answer to a probe.
    pub fn is_probing(&self) -> (r: bool)
        ensures
            r == self@.phase is Probing,
    {
        matches!(self.phase, Phase::Probing(_))
    }

    /// Whether the run waits for the answer to an upload.
    pub fn is_uploading(&self) -> (r: bool)
        ensures
            r == self@.phase is Uploading,
    {
        matches!(self.phase, Phase::Uploading(_))
    }

    fn next_chunk_len(&self) -> (r: u64)
        requires
            self.wf(),
        ensures
            r == chunk_len(self@.identity.total_size, self@.sent),
    {
        let left = self.identity.total_size() - self.sent;
        if left < CHUNK_SIZE {
            left
        } else {
            CHUNK_SIZE
        }
    }

    /// What the caller is to do next.
    pub fn next_action(&self) -> (r: Action)
        requires
            self.wf(),
        ensures
            r@ == action_of(self@),
    {
        match &self.phase {
            Phase::Probing(i) => {
                let url = add_qs_to_url(self.endpoint.as_str(), &probe_query(&self.identity, *i));
                if url_parses(url.as_str()) {
                    Action::Probe { url, chunk: *i }
                } else {
                    Action::Abort { error: Failure::InvalidUrl(url) }
                }
            },
            Phase::Uploading(i) => {
                let url = add_qs_to_url(self.endpoint.as_str(), &upload_query(&self.identity, *i));
                if url_parses(url.as_str()) {
                    Action::Upload { url, chunk: *i, length: self.next_chunk_len() }
                } else {
                    Action::Abort { error: Failure::InvalidUrl(url) }
                }
            },
            Phase::Done(result) => {
                let result = match result {
                    Some(b) => Some(b.clone()),
                    None => None,
                };
                Action::Finish { result }
            },
            Phase::Failed(e) => Action::Abort {
                error: Failure::Rejected(UploadError::new(e.message.clone())),
            },
        }
    }

    /// Takes the server's answer to the probe of the current chunk.
    pub fn on_probe(&mut self, status: u16, body: String)
        requires
            old(self).wf(),
            old(self)@.phase is Probing,
        ensures
            final(self).wf(),
            final(self)@ == probed(old(self)@, status, body@),
    {
        if let Phase::Probing(i) = self.phase {
            match classify_probe(status, body) {
                ProbeOutcome::Exists => {
                    if i >= self.identity.chunk_count() {
                        self.phase = Phase::Done(None);
                    } else {
                        self.phase = Phase::Probing(i + 1);
                    }
                },
                ProbeOutcome::NeedsUpload => {
                    self.phase = Phase::Uploading(i);
                },
                ProbeOutcome::Fatal(e) => {
                    self.phase = Phase::Failed(e);
                },
            }
        }
    }

    /// Takes the server's answer to the upload of the current chunk.
    pub fn on_upload(&mut self, status: u16, body: String)
        requires
            old(self).wf(),
            old(self)@.phase is Uploading,
        ensures
            final(self).wf(),
            final(self)@ == uploaded(old(self)@, status, body@),
    {
        if let Phase::Uploading(i) = self.phase {
            match upload_result(status, body) {
                Ok(content) => {
                    self.sent = self.sent + self.next_chunk_len();
                    if i >= self.identity.chunk_count() {
                        self.phase = Phase::Done(Some(content));
                    } else {
                        self.phase = Phase::Probing(i + 1);
                    }
                },
                Err(e) => {
                    self.phase = Phase::Failed(e);
                },
            }
        }
    }
}

/// The run after `k` probes in a row that the server answered 200.
pub open spec fn after_present_probes(s: SessionModel, k: nat) -> SessionModel
    decreases k,
{
    if k == 0 {
        s
    } else {
        probed(after_present_probes(s, (k - 1) as nat), 200, Seq::empty())
    }
}

/// A run over a file of `n` chunks whose every probe the server answers 200
/// probes chunks 1, 2, ..., n in turn, asks for no upload and sends nothing, and
/// then finishes without a result.
pub proof fn lemma_all_present(s: SessionModel, k: nat)
    requires
        session_wf(s),
        s.phase == PhaseModel::Probing(1),
        k <= s.identity.chunk_count,
    ensures
        ({
            let t = after_present_probes(s, k);
            &&& session_wf(t)
            &&& t.sent == s.sent
            &&& t.identity == s.identity
            &&& t.endpoint == s.endpoint
            &&& k < s.identity.chunk_count ==> t.phase == PhaseModel::Probing(k + 1) && match action_of(t) {
                ActionModel::Probe { chunk, .. } => chunk == k + 1,
                ActionModel::Abort { error: FailureModel::InvalidUrl(_) } => true,
                _ => false,
            }
            &&& k == s.identity.chunk_count ==> t.phase == PhaseModel::Done(None) && action_of(t)
                == ActionModel::Finish { result: None }
        }),
    decreases k,
{
    if k > 0 {
        lemma_all_present(s, (k - 1) as nat);
        let p = after_present_probes(s, (k - 1) as nat);
        assert(after_present_probes(s, k) == probed(p, 200, Seq::empty()));
    }
}

/// A probe answered 400 leads to one upload of the same chunk, of as many bytes
/// as a chunk holds or as are left of the file, whichever is fewer, before any
/// other probe. Once the server accepts it, those bytes count as sent and the
/// run moves on to the next chunk's probe, or finishes after the last chunk.
pub proof fn lemma_upload_on_need(s: SessionModel, i: nat, body: Seq<char>, reply: Seq<char>)
    requires
        session_wf(s),
        s.phase == PhaseModel::Probing(i),
    ensures
        ({
            let t = probed(s, 400, body);
            let total = s.identity.total_size;
            let len = chunk_len(total, s.sent);
            let u = uploaded(t, 200, reply);
            &&& session_wf(t)
            &&& t.phase == PhaseModel::Uploading(i)
            &&& t.sent == s.sent
            &&& len <= CHUNK_SIZE
            &&& len <= total - s.sent
            &&& (len == CHUNK_SIZE || len == total - s.sent)
            &&& match action_of(t) {
                ActionModel::Upload { chunk, length, .. } => chunk == i && length == len,
                ActionModel::Abort { error: FailureModel::InvalidUrl(_) } => true,
                _ => false,
            }
            &&& session_wf(u)
            &&& u.sent == s.sent + len
            &&& u.phase == if i < s.identity.chunk_count {
                PhaseModel::Probing(i + 1)
            } else {
                PhaseModel::Done(Some(reply))
            }
        }),
{
}

/// A probe answered with a status other than 200 or 400, or an upload answered
/// with a status other than 200, ends the run: it asks for no further request
/// and reports the response body as its error.
pub proof fn lemma_fatal_abort(s: SessionModel, status: u16, body: Seq<char>)
    requires
        session_wf(s),
    ensures
        ((s.phase is Probing && status != 200 && status != 400) ==> {
            &&& probed(s, status, body).phase == PhaseModel::Failed(body)
            &&& action_of(probed(s, status, body)) == (ActionModel::Abort {
                error: FailureModel::Rejected(body),
            })
        }),
        ((s.phase is Uploading && status != 200) ==> {
            &&& uploaded(s, status, body).phase == PhaseModel::Failed(body)
            &&& action_of(uploaded(s, status, body)) == (ActionModel::Abort {
                error: FailureModel::Rejected(body),
            })
        }),
{
}

/// An accepted upload of the last chunk ends the run with the server's
/// response body as its result, and no further request.
pub proof fn lemma_last_upload_result(s: SessionModel, body: Seq<char>)
    requires
        session_wf(s),
        s.phase == PhaseModel::Uploading(s.identity.chunk_count),
    ensures
        uploaded(s, 200, body).phase == PhaseModel::Done(Some(body)),
        action_of(uploaded(s, 200, body)) == (ActionModel::Finish { result: Some(body) }),
{
}

} // verus!
