//! A scripted platform for tests and desktop runs: it records what the app
//! asked for and answers from what the test set up.
use vstd::prelude::*;

use crate::domain::document::AttachmentRef;
use crate::error::PlatformError;
use crate::platform::PickDocumentOutcome;
use crate::text::{chars_of, same_text, string_from_chars};

verus! {

/// What a `FakePlatform` holds, as plain values.
pub struct FakePlatformView {
    /// The answer of the next document pick, if one was set up.
    pub next_pick: Option<PickDocumentOutcome>,
    /// URIs of the attachments opened so far, in order.
    pub opened_documents: Seq<Seq<char>>,
    /// Links opened so far, in order.
    pub opened_urls: Seq<Seq<char>>,
    /// URIs whose read grants were released, in order.
    pub released_uris: Seq<Seq<char>>,
    /// The error that opening documents and links fails with, if set.
    pub open_error: Option<PlatformError>,
    /// Documents saved so far: file name, MIME type and content.
    pub created_documents: Seq<(Seq<char>, Seq<char>, Seq<u8>)>,
    /// Text documents that can be read, by URI.
    pub text_documents: Map<Seq<char>, Seq<char>>,
}

impl FakePlatformView {
    /// A platform on which nothing has happened.
    pub open spec fn empty() -> FakePlatformView {
        FakePlatformView {
            next_pick: None,
            opened_documents: Seq::empty(),
            opened_urls: Seq::empty(),
            released_uris: Seq::empty(),
            open_error: None,
            created_documents: Seq::empty(),
            text_documents: Map::empty(),
        }
    }

    /// What the next pick answers: the outcome set up, else a cancellation.
    pub open spec fn pick_answer(self) -> PickDocumentOutcome {
        match self.next_pick {
            Some(outcome) => outcome,
            None => PickDocumentOutcome::Cancelled,
        }
    }

    /// The platform after a pick: the outcome set up is used up.
    pub open spec fn after_pick(self) -> FakePlatformView {
        FakePlatformView { next_pick: None, ..self }
    }

    /// The platform after a text document is stored under `uri`.
    pub open spec fn after_set_text(self, uri: Seq<char>, content: Seq<char>) -> FakePlatformView {
        FakePlatformView { text_documents: self.text_documents.insert(uri, content), ..self }
    }

    /// What reading the text document at `uri` answers.
    pub open spec fn read_answer(self, uri: Seq<char>) -> Result<Seq<char>, PlatformError> {
        if self.text_documents.contains_key(uri) {
            Ok(self.text_documents[uri])
        } else {
            Err(PlatformError::AttachmentUnavailable)
        }
    }

    /// The platform after an attachment is opened (unchanged when opening
    /// fails).
    pub open spec fn after_open_document(self, uri: Seq<char>) -> FakePlatformView {
        if self.open_error is Some {
            self
        } else {
            FakePlatformView { opened_documents: self.opened_documents.push(uri), ..self }
        }
    }

    /// The platform after a link is opened (unchanged when opening fails).
    pub open spec fn after_open_url(self, url: Seq<char>) -> FakePlatformView {
        if self.open_error is Some {
            self
        } else {
            FakePlatformView { opened_urls: self.opened_urls.push(url), ..self }
        }
    }

    /// What opening a document or a link answers.
    pub open spec fn open_answer(self) -> Result<(), PlatformError> {
        match self.open_error {
            Some(e) => Err(e),
            None => Ok(()),
        }
    }
}

/// The text documents stored by a list of (URI, content) writes, the later
/// write of a URI replacing the earlier.
pub open spec fn written_texts(writes: Seq<(String, String)>) -> Map<Seq<char>, Seq<char>>
    decreases writes.len(),
{
    if writes.len() == 0 {
        Map::empty()
    } else {
        written_texts(writes.drop_last()).insert(writes.last().0@, writes.last().1@)
    }
}

/// The texts of a list of strings.
pub open spec fn texts_view(v: Seq<String>) -> Seq<Seq<char>> {
    Seq::new(v.len(), |i: int| v[i]@)
}

/// The plain values of a list of saved documents.
pub open spec fn created_view(v: Seq<(String, String, Vec<u8>)>) -> Seq<(Seq<char>, Seq<char>, Seq<u8>)> {
    Seq::new(v.len(), |i: int| (v[i].0@, v[i].1@, v[i].2@))
}

/// A platform stand-in that records requests and answers as set up.
pub struct FakePlatform {
    next_pick: Option<PickDocumentOutcome>,
    opened_documents: Vec<String>,
    opened_urls: Vec<String>,
    released_uris: Vec<String>,
    open_error: Option<PlatformError>,
    created_documents: Vec<(String, String, Vec<u8>)>,
    text_writes: Vec<(String, String)>,
}

impl View for FakePlatform {
    type V = FakePlatformView;

    closed spec fn view(&self) -> FakePlatformView {
        FakePlatformView {
            next_pick: self.next_pick,
            opened_documents: texts_view(self.opened_documents@),
            opened_urls: texts_view(self.opened_urls@),
            released_uris: texts_view(self.released_uris@),
            open_error: self.open_error,
            created_documents: created_view(self.created_documents@),
            text_documents: written_texts(self.text_writes@),
        }
    }
}

fn copy_text(s: &str) -> (r: String)
    ensures
        r@ == s@,
{
    string_from_chars(chars_of(s).as_slice())
}

fn copy_texts(v: &Vec<String>) -> (r: Vec<String>)
    ensures
        texts_view(r@) == texts_view(v@),
{
    let mut r: Vec<String> = Vec::new();
    let mut i: usize = 0;
    while i < v.len()
        invariant
            i <= v@.len(),
            r@.len() == i,
            forall|k: int| 0 <= k < i ==> #[trigger] r@[k]@ == v@[k]@,
        decreases v@.len() - i,
    {
        r.push(v[i].clone());
        i = i + 1;
    }
    assert(texts_view(r@) =~= texts_view(v@));
    r
}

fn copy_bytes(v: &[u8]) -> (r: Vec<u8>)
    ensures
        r@ == v@,
{
    let mut r: Vec<u8> = Vec::new();
    let mut i: usize = 0;
    while i < v.len()
        invariant
            i <= v@.len(),
            r@ == v@.subrange(0, i as int),
        decreases v@.len() - i,
    {
        r.push(v[i]);
        i = i + 1;
        assert(r@ =~= v@.subrange(0, i as int));
    }
    assert(v@.subrange(0, v@.len() as int) =~= v@);
    r
}

fn push_text(v: &mut Vec<String>, s: String)
    ensures
        texts_view(final(v)@) == texts_view(old(v)@).push(s@),
{
    v.push(s);
    assert(texts_view(final(v)@) =~= texts_view(old(v)@).push(s@));
}

impl Default for FakePlatform {
    fn default() -> (r: Self)
        ensures
            r@ == FakePlatformView::empty(),
    {
        let r = FakePlatform {
            next_pick: None,
            opened_documents: Vec::new(),
            opened_urls: Vec::new(),
            released_uris: Vec::new(),
            open_error: None,
            created_documents: Vec::new(),
            text_writes: Vec::new(),
        };
        assert(r@.opened_documents =~= Seq::<Seq<char>>::empty());
        assert(r@.opened_urls =~= Seq::<Seq<char>>::empty());
        assert(r@.released_uris =~= Seq::<Seq<char>>::empty());
        assert(r@.created_documents =~= Seq::<(Seq<char>, Seq<char>, Seq<u8>)>::empty());
        assert(r@.text_documents =~= Map::<Seq<char>, Seq<char>>::empty());
        r
    }
}

impl FakePlatform {
    /// A fresh platform whose next pick answers `result`.
    pub fn with_pick_result(result: PickDocumentOutcome) -> (r: Self)
        ensures
            r@ == (FakePlatformView { next_pick: Some(result), ..FakePlatformView::empty() }),
    {
        let mut platform = Self::default();
        platform.set_next_pick(result);
        platform
    }

    /// Sets up the answer of the next pick.
    pub fn set_next_pick(&mut self, result: PickDocumentOutcome)
        ensures
            final(self)@ == (FakePlatformView { next_pick: Some(result), ..old(self)@ }),
    {
        self.next_pick = Some(result);
    }

    /// Sets up the error that opening documents and links fails with.
    pub fn set_open_error(&mut self, error: Option<PlatformError>)
        ensures
            final(self)@ == (FakePlatformView { open_error: error, ..old(self)@ }),
    {
        self.open_error = error;
    }

    /// URIs of the attachments opened so far.
    pub fn opened_documents(&self) -> (r: Vec<String>)
        ensures
            texts_view(r@) == self@.opened_documents,
    {
        copy_texts(&self.opened_documents)
    }

    /// Links opened so far.
    pub fn opened_urls(&self) -> (r: Vec<String>)
        ensures
            texts_view(r@) == self@.opened_urls,
    {
        copy_texts(&self.opened_urls)
    }

    /// URIs whose read grants were released.
    pub fn released_uris(&self) -> (r: Vec<String>)
        ensures
            texts_view(r@) == self@.released_uris,
    {
        copy_texts(&self.released_uris)
    }

    /// Stores a text document that reads will answer with.
    pub fn set_text_document(&mut self, uri: &str, content: &str)
        ensures
            final(self)@ == old(self)@.after_set_text(uri@, content@),
    {
        self.text_writes.push((copy_text(uri), copy_text(content)));
        assert(self.text_writes@.drop_last() =~= old(self).text_writes@);
        assert(self@.text_documents =~= old(self)@.text_documents.insert(uri@, content@));
    }

    /// Documents saved so far.
    pub fn created_documents(&self) -> (r: Vec<(String, String, Vec<u8>)>)
        ensures
            created_view(r@) == self@.created_documents,
    {
        let mut r: Vec<(String, String, Vec<u8>)> = Vec::new();
        let mut i: usize = 0;
        while i < self.created_documents.len()
            invariant
                i <= self.created_documents@.len(),
                r@.len() == i,
                forall|k: int| 0 <= k < i ==> #[trigger] created_view(r@)[k] == created_view(
                    self.created_documents@,
                )[k],
            decreases self.created_documents@.len() - i,
        {
            let d = &self.created_documents[i];
            let ghost old_r = r@;
            r.push((d.0.clone(), d.1.clone(), copy_bytes(d.2.as_slice())));
            proof {
                assert forall|k: int| 0 <= k < i + 1 implies #[trigger] created_view(r@)[k]
                    == created_view(self.created_documents@)[k] by {
                    if k < i {
                        assert(created_view(old_r)[k] == created_view(self.created_documents@)[k]);
                        assert(r@[k] == old_r[k]);
                    }
                }
            }
            i = i + 1;
        }
        assert(created_view(r@) =~= created_view(self.created_documents@));
        r
    }

    /// The app's data directory: the configured directory, else the
    /// in-memory marker `:memory:`.
    pub fn app_data_directory(&self, configured: Option<String>) -> (r: Result<
        String,
        PlatformError,
    >)
        ensures
            r matches Ok(path) && match configured {
                Some(dir) => path == dir,
                None => path@ == ":memory:"@,
            },
    {
        match configured {
            Some(dir) => Ok(dir),
            None => Ok(copy_text(":memory:")),
        }
    }

    /// Answers the outcome set up for this pick, or a cancellation.
    pub fn pick_document(&mut self, prefer_downloads: bool) -> (r: Result<
        PickDocumentOutcome,
        PlatformError,
    >)
        ensures
            r == Ok::<PickDocumentOutcome, PlatformError>(old(self)@.pick_answer()),
            final(self)@ == old(self)@.after_pick(),
    {
        let mut taken: Option<PickDocumentOutcome> = None;
        std::mem::swap(&mut taken, &mut self.next_pick);
        match taken {
            Some(outcome) => Ok(outcome),
            None => Ok(PickDocumentOutcome::Cancelled),
        }
    }

    /// Records a saved document; saving always succeeds.
    pub fn create_document(&mut self, file_name: &str, mime_type: &str, content: &[u8]) -> (r:
        Result<bool, PlatformError>)
        ensures
            r == Ok::<bool, PlatformError>(true),
            final(self)@ == (FakePlatformView {
                created_documents: old(self)@.created_documents.push(
                    (file_name@, mime_type@, content@),
                ),
                ..old(self)@
            }),
    {
        self.created_documents.push((copy_text(file_name), copy_text(mime_type), copy_bytes(content)));
        assert(self@.created_documents =~= old(self)@.created_documents.push(
            (file_name@, mime_type@, content@),
        ));
        Ok(true)
    }

    /// The text document stored under `uri`.
    pub fn read_text_document(&self, uri: &str) -> (r: Result<String, PlatformError>)
        ensures
            match (r, self@.read_answer(uri@)) {
                (Ok(text), Ok(expected)) => text@ == expected,
                (Err(a), Err(b)) => a == b,
                _ => false,
            },
    {
        let mut i: usize = self.text_writes.len();
        assert(self.text_writes@.subrange(0, i as int) =~= self.text_writes@);
        while i > 0
            invariant
                i <= self.text_writes@.len(),
                written_texts(self.text_writes@).contains_key(uri@) == written_texts(
                    self.text_writes@.subrange(0, i as int),
                ).contains_key(uri@),
                written_texts(self.text_writes@).contains_key(uri@) ==> written_texts(
                    self.text_writes@,
                )[uri@] == written_texts(self.text_writes@.subrange(0, i as int))[uri@],
            decreases i,
        {
            let ghost prefix = self.text_writes@.subrange(0, i as int);
            assert(prefix.drop_last() =~= self.text_writes@.subrange(0, i - 1));
            let entry = &self.text_writes[i - 1];
            if same_text(entry.0.as_str(), uri) {
                return Ok(entry.1.clone());
            }
            i = i - 1;
        }
        assert(self.text_writes@.subrange(0, 0) =~= Seq::<(String, String)>::empty());
        Err(PlatformError::AttachmentUnavailable)
    }

    /// Opens an attachment, unless opening was set up to fail.
    pub fn open_document(&mut self, attachment: &AttachmentRef) -> (r: Result<(), PlatformError>)
        ensures
            r == old(self)@.open_answer(),
            final(self)@ == old(self)@.after_open_document(attachment.uri@),
    {
        match &self.open_error {
            Some(error) => {
                return Err(error.duplicate());
            },
            None => {},
        }
        push_text(&mut self.opened_documents, attachment.uri.clone());
        Ok(())
    }

    /// Opens a link, unless opening was set up to fail.
    pub fn open_url(&mut self, url: &str) -> (r: Result<(), PlatformError>)
        ensures
            r == old(self)@.open_answer(),
            final(self)@ == old(self)@.after_open_url(url@),
    {
        match &self.open_error {
            Some(error) => {
                return Err(error.duplicate());
            },
            None => {},
        }
        push_text(&mut self.opened_urls, copy_text(url));
        Ok(())
    }

    /// Records the release of a read grant.
    pub fn release_read_permission(&mut self, uri: &str) -> (r: Result<(), PlatformError>)
        ensures
            r == Ok::<(), PlatformError>(()),
            final(self)@ == (FakePlatformView {
                released_uris: old(self)@.released_uris.push(uri@),
                ..old(self)@
            }),
    {
        push_text(&mut self.released_uris, copy_text(uri));
        Ok(())
    }
}

/// A text document reads back as what was last stored under its URI, and
/// storing it leaves the other documents as they were.
pub proof fn lemma_text_document_read_back(
    v: FakePlatformView,
    uri: Seq<char>,
    content: Seq<char>,
    other: Seq<char>,
)
    ensures
        v.after_set_text(uri, content).read_answer(uri) == Ok::<Seq<char>, PlatformError>(content),
        other != uri ==> v.after_set_text(uri, content).read_answer(other) == v.read_answer(other),
{
}

/// A pick outcome that was set up is answered once; the pick after it is a
/// cancellation unless another outcome is set up.
pub proof fn lemma_pick_is_one_shot(v: FakePlatformView, outcome: PickDocumentOutcome)
    ensures
        (FakePlatformView { next_pick: Some(outcome), ..v }).pick_answer() == outcome,
        (FakePlatformView { next_pick: Some(outcome), ..v }).after_pick().pick_answer()
            == PickDocumentOutcome::Cancelled,
{
}

/// While an open error is set up, opening documents and links fails with it
/// and records nothing.
pub proof fn lemma_open_error_blocks_opens(v: FakePlatformView, target: Seq<char>)
    requires
        v.open_error is Some,
    ensures
        v.open_answer() == Err::<(), PlatformError>(v.open_error->Some_0),
        v.after_open_document(target) == v,
        v.after_open_url(target) == v,
{
}

} // verus!
