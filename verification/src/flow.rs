//! The service's decisions around its database, as step functions: each
//! takes what the database answered and says what to ask it next, or how
//! the operation ends. The caller performs the requests.
use vstd::prelude::*;
use vstd::string::*;
use crate::error::CustomError;

verus! {

/// A request to the database.
#[derive(Debug, Clone, PartialEq, Eq)]
pub enum DbRequest {
    /// Look up the link with this short code.
    FindByCode(String),
    /// Store a new link.
    Insert { short_code: String, long_url: String },
    /// Point an existing short code at another URL.
    UpdateLongUrl { short_code: String, long_url: String },
    /// Remove the link with this short code.
    Delete(String),
}

/// A database request, its strings taken as character sequences.
pub enum DbRequestView {
    FindByCode(Seq<char>),
    Insert { short_code: Seq<char>, long_url: Seq<char> },
    UpdateLongUrl { short_code: Seq<char>, long_url: Seq<char> },
    Delete(Seq<char>),
}

impl View for DbRequest {
    type V = DbRequestView;

    open spec fn view(&self) -> DbRequestView {
        match self {
            DbRequest::FindByCode(c) => DbRequestView::FindByCode(c@),
            DbRequest::Insert { short_code, long_url } => DbRequestView::Insert {
                short_code: short_code@,
                long_url: long_url@,
            },
            DbRequest::UpdateLongUrl { short_code, long_url } => DbRequestView::UpdateLongUrl {
                short_code: short_code@,
                long_url: long_url@,
            },
            DbRequest::Delete(c) => DbRequestView::Delete(c@),
        }
    }
}

/// Whether a write changed anything, given the number of rows it affected.
pub fn rows_changed(rows_affected: u64) -> (changed: bool)
    ensures
        changed == (rows_affected > 0),
{
    rows_affected > 0
}

/// Where the creation of a short link stands.
pub enum CreateStage {
    /// The current candidate code is being looked up.
    Checking,
    /// The current candidate code is taken; a new one is needed.
    CodeTaken,
    /// The current candidate code was free and is being stored.
    Inserting,
    /// The link is stored under the current code.
    Created,
}

/// The state of a creation, as seen by contracts.
pub struct CreateView {
    pub long_url: Seq<char>,
    pub code: Seq<char>,
    pub stage: CreateStage,
}

/// The insert that a creation asks for after looking up its candidate
/// code: none when the lookup found the code, otherwise the link stored
/// under exactly that code.
pub open spec fn insert_after_lookup(state: CreateView, found: bool) -> Option<DbRequestView> {
    if found {
        None
    } else {
        Some(DbRequestView::Insert { short_code: state.code, long_url: state.long_url })
    }
}

/// Creating a link keeps short codes unique. `codes` are the short codes of
/// the stored rows, and the lookup answers whether they hold the candidate
/// (no other writer runs in between). If the rows' codes were distinct, the
/// insert that follows the lookup adds the candidate code, and afterwards
/// the codes are still distinct and exactly one row, the new one, has it.
pub proof fn lemma_create_keeps_codes_unique(codes: Seq<Seq<char>>, state: CreateView)
    requires
        codes.no_duplicates(),
        state.stage is Checking,
    ensures
        insert_after_lookup(state, codes.contains(state.code)) matches Some(
            DbRequestView::Insert { short_code, long_url },
        ) ==> {
            let after = codes.push(short_code);
            &&& short_code == state.code
            &&& long_url == state.long_url
            &&& !codes.contains(short_code)
            &&& after.no_duplicates()
            &&& after[codes.len() as int] == short_code
            &&& forall|i: int| 0 <= i < after.len() && after[i] == short_code ==> i == codes.len()
        },
{
    if !codes.contains(state.code) {
        let c = state.code;
        let after = codes.push(c);
        assert forall|i: int, j: int|
            0 <= i < after.len() && 0 <= j < after.len() && i != j implies after[i] != after[j] by {
            if i < codes.len() && j < codes.len() {
                assert(after[i] == codes[i] && after[j] == codes[j]);
            } else if i < codes.len() {
                assert(after[i] == codes[i]);
                assert(codes.contains(codes[i]));
            } else {
                assert(after[j] == codes[j]);
                assert(codes.contains(codes[j]));
            }
        }
        assert forall|i: int| 0 <= i < after.len() && after[i] == c implies i == codes.len() by {
            if i < codes.len() {
                assert(after[i] == codes[i]);
                assert(codes.contains(codes[i]));
            }
        }
    }
}

/// The creation of a short link for a long URL: candidate codes are looked
/// up until one is free, and the link is stored under that one.
pub struct CreateShortUrl {
    long_url: String,
    code: String,
    stage: CreateStage,
}

impl View for CreateShortUrl {
    type V = CreateView;

    closed spec fn view(&self) -> CreateView {
        CreateView { long_url: self.long_url@, code: self.code@, stage: self.stage }
    }
}

impl CreateShortUrl {
    /// Starts with a first candidate code, which is looked up.
    pub fn begin(long_url: String, code: String) -> (r: (CreateShortUrl, DbRequest))
        ensures
            r.0@ == (CreateView { long_url: long_url@, code: code@, stage: CreateStage::Checking }),
            r.1@ == DbRequestView::FindByCode(code@),
    {
        let request = DbRequest::FindByCode(code.clone());
        (CreateShortUrl { long_url, code, stage: CreateStage::Checking }, request)
    }

    /// Takes the answer of the lookup of the candidate code. A taken code
    /// asks for a new candidate (`None`); a free one is stored under
    /// exactly that code.
    pub fn on_lookup(&mut self, found: bool) -> (r: Option<DbRequest>)
        requires
            old(self)@.stage is Checking,
        ensures
            found ==> r is None && final(self)@ == (CreateView {
                stage: CreateStage::CodeTaken,
                ..old(self)@
            }),
            !found ==> r is Some && r->0@ == (DbRequestView::Insert {
                short_code: old(self)@.code,
                long_url: old(self)@.long_url,
            }) && final(self)@ == (CreateView { stage: CreateStage::Inserting, ..old(self)@ }),
            match r {
                Some(q) => insert_after_lookup(old(self)@, found) == Some(q@),
                None => insert_after_lookup(old(self)@, found) is None,
            },
    {
        if found {
            self.stage = CreateStage::CodeTaken;
            None
        } else {
            self.stage = CreateStage::Inserting;
            Some(DbRequest::Insert { short_code: self.code.clone(), long_url: self.long_url.clone() })
        }
    }

    /// Replaces a taken code with a new candidate, which is looked up.
    pub fn retry(&mut self, code: String) -> (r: DbRequest)
        requires
            old(self)@.stage is CodeTaken,
        ensures
            final(self)@ == (CreateView { code: code@, stage: CreateStage::Checking, ..old(self)@ }),
            r@ == DbRequestView::FindByCode(code@),
    {
        let request = DbRequest::FindByCode(code.clone());
        self.code = code;
        self.stage = CreateStage::Checking;
        request
    }

    /// Takes the confirmation that the link was stored, and answers the
    /// code it was stored under.
    pub fn on_inserted(&mut self) -> (code: String)
        requires
            old(self)@.stage is Inserting,
        ensures
            code@ == old(self)@.code,
            final(self)@ == (CreateView { stage: CreateStage::Created, ..old(self)@ }),
    {
        self.stage = CreateStage::Created;
        self.code.clone()
    }
}

/// A change to an existing link.
#[derive(Debug, Clone, PartialEq, Eq)]
pub enum UrlChange {
    /// Point the short code at this URL.
    UpdateLongUrl(String),
    /// Remove the link.
    Delete,
}

/// A change, its strings taken as character sequences.
pub enum UrlChangeView {
    UpdateLongUrl(Seq<char>),
    Delete,
}

impl View for UrlChange {
    type V = UrlChangeView;

    open spec fn view(&self) -> UrlChangeView {
        match self {
            UrlChange::UpdateLongUrl(u) => UrlChangeView::UpdateLongUrl(u@),
            UrlChange::Delete => UrlChangeView::Delete,
        }
    }
}

/// Where a change to an existing link stands.
pub enum ChangeStage {
    /// The short code is being looked up.
    Checking,
    /// The link exists and the change is being written.
    Applying,
    /// The change is written.
    Applied,
    /// No link has the short code; nothing was written.
    Missing,
}

/// The state of a change, as seen by contracts.
pub struct ChangeView {
    pub short_code: Seq<char>,
    pub change: UrlChangeView,
    pub stage: ChangeStage,
}

/// Text of the error for a change to a link that does not exist.
pub const URL_NOT_FOUND_TEXT: &'static str = "Url not found";

/// The request that carries `change` out on `short_code`.
pub open spec fn change_request(short_code: Seq<char>, change: UrlChangeView) -> DbRequestView {
    match change {
        UrlChangeView::UpdateLongUrl(u) => DbRequestView::UpdateLongUrl {
            short_code: short_code,
            long_url: u,
        },
        UrlChangeView::Delete => DbRequestView::Delete(short_code),
    }
}

/// A change of an existing link is written to exactly the looked-up code:
/// an update carries that code and the new URL unchanged, a deletion names
/// that code.
pub proof fn lemma_change_request_exact(short_code: Seq<char>, long_url: Seq<char>)
    ensures
        change_request(short_code, UrlChangeView::UpdateLongUrl(long_url))
            == (DbRequestView::UpdateLongUrl { short_code: short_code, long_url: long_url }),
        change_request(short_code, UrlChangeView::Delete) == DbRequestView::Delete(short_code),
{
}

/// A request and a change, taken as character sequences, keep every string
/// they carry.
pub proof fn lemma_views_keep_strings(code: String, url: String)
    ensures
        DbRequest::FindByCode(code)@ == DbRequestView::FindByCode(code@),
        (DbRequest::Insert { short_code: code, long_url: url })@ == (DbRequestView::Insert {
            short_code: code@,
            long_url: url@,
        }),
        (DbRequest::UpdateLongUrl { short_code: code, long_url: url })@
            == (DbRequestView::UpdateLongUrl { short_code: code@, long_url: url@ }),
        DbRequest::Delete(code)@ == DbRequestView::Delete(code@),
        UrlChange::UpdateLongUrl(url)@ == UrlChangeView::UpdateLongUrl(url@),
        UrlChange::Delete@ == UrlChangeView::Delete,
{
}

/// Whether `e` is the error for a change to a link that does not exist.
pub open spec fn is_url_not_found(e: CustomError) -> bool {
    &&& e is NotFound
    &&& e->NotFound_0 is Some
    &&& e->NotFound_0->0@ == URL_NOT_FOUND_TEXT@
}

/// A change to the link with a given short code: the code is looked up
/// first, and the change is written only when the link exists.
pub struct ChangeExistingUrl {
    short_code: String,
    change: UrlChange,
    stage: ChangeStage,
}

impl View for ChangeExistingUrl {
    type V = ChangeView;

    closed spec fn view(&self) -> ChangeView {
        ChangeView { short_code: self.short_code@, change: self.change@, stage: self.stage }
    }
}

impl ChangeExistingUrl {
    /// Starts the change by looking the short code up.
    pub fn begin(short_code: String, change: UrlChange) -> (r: (ChangeExistingUrl, DbRequest))
        ensures
            r.0@ == (ChangeView {
                short_code: short_code@,
                change: change@,
                stage: ChangeStage::Checking,
            }),
            r.1@ == DbRequestView::FindByCode(short_code@),
    {
        let request = DbRequest::FindByCode(short_code.clone());
        (ChangeExistingUrl { short_code, change, stage: ChangeStage::Checking }, request)
    }

    /// Takes the answer of the lookup: an existing link gets the change
    /// written; a missing one ends the change with `NotFound("Url not found")`.
    pub fn on_lookup(&mut self, found: bool) -> (r: Result<DbRequest, CustomError>)
        requires
            old(self)@.stage is Checking,
        ensures
            found ==> r is Ok && r->Ok_0@ == change_request(old(self)@.short_code, old(self)@.change)
                && final(self)@ == (ChangeView { stage: ChangeStage::Applying, ..old(self)@ }),
            found ==> (old(self)@.change matches UrlChangeView::UpdateLongUrl(u) ==> r is Ok
                && r->Ok_0@ == (DbRequestView::UpdateLongUrl {
                short_code: old(self)@.short_code,
                long_url: u,
            })),
            found && old(self)@.change is Delete ==> r is Ok && r->Ok_0@ == DbRequestView::Delete(
                old(self)@.short_code,
            ),
            !found ==> r is Err && is_url_not_found(r->Err_0) && final(self)@ == (ChangeView {
                stage: ChangeStage::Missing,
                ..old(self)@
            }),
    {
        if found {
            self.stage = ChangeStage::Applying;
            let request = match &self.change {
                UrlChange::UpdateLongUrl(u) => DbRequest::UpdateLongUrl {
                    short_code: self.short_code.clone(),
                    long_url: u.clone(),
                },
                UrlChange::Delete => DbRequest::Delete(self.short_code.clone()),
            };
            Ok(request)
        } else {
            self.stage = ChangeStage::Missing;
            Err(CustomError::NotFound(Some(String::from_str(URL_NOT_FOUND_TEXT))))
        }
    }

    /// Takes the confirmation that the change was written; the operation
    /// then succeeds with `true`, whatever number of rows it affected.
    pub fn on_applied(&mut self) -> (done: bool)
        requires
            old(self)@.stage is Applying,
        ensures
            done,
            final(self)@ == (ChangeView { stage: ChangeStage::Applied, ..old(self)@ }),
    {
        self.stage = ChangeStage::Applied;
        true
    }
}

} // verus!
