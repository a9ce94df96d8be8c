use vstd::prelude::*;

use crate::error::PipelineError;

verus! {

/// How the input path is processed.
#[derive(Clone, Copy, Debug, PartialEq, Eq, Structural)]
pub enum Mode {
    /// Every document in the directory, one after another.
    Directory,
    /// The one document the path names.
    SingleDocument,
}

/// A directory entry with the extension its content was recognised as, if any.
pub struct Candidate {
    pub path: String,
    pub extension: Option<String>,
}

/// Chooses the mode from what the input path is: a directory wins over a file;
/// a path that is neither is an error.
pub fn input_mode(is_dir: bool, is_file: bool) -> (r: Result<Mode, PipelineError>)
    ensures
        is_dir ==> r == Ok::<Mode, PipelineError>(Mode::Directory),
        !is_dir && is_file ==> r == Ok::<Mode, PipelineError>(Mode::SingleDocument),
        !is_dir && !is_file ==> r == Err::<Mode, PipelineError>(PipelineError::InvalidInputPath),
{
    if is_dir {
        Ok(Mode::Directory)
    } else if is_file {
        Ok(Mode::SingleDocument)
    } else {
        Err(PipelineError::InvalidInputPath)
    }
}

/// The extension of the document type this pipeline renders.
pub open spec fn document_extension() -> Seq<char> {
    seq!['p', 'd', 'f']
}

/// Whether a recognised extension is that of a supported document.
pub fn is_document_extension(extension: &str) -> (r: bool)
    ensures
        r == (extension@ == document_extension()),
{
    let n = extension.unicode_len();
    if n != 3 {
        return false;
    }
    let r = extension.get_char(0) == 'p' && extension.get_char(1) == 'd' && extension.get_char(2) == 'f';
    if r {
        assert(extension@ =~= document_extension());
    }
    r
}

/// Whether a candidate's content was recognised as a supported document.
pub open spec fn is_document(c: Candidate) -> bool {
    match c.extension {
        Some(e) => e@ == document_extension(),
        None => false,
    }
}

/// The paths of the supported documents among `entries`, in their order.
pub open spec fn documents_spec(entries: Seq<Candidate>) -> Seq<Seq<char>>
    decreases entries.len(),
{
    if entries.len() == 0 {
        Seq::empty()
    } else {
        let rest = documents_spec(entries.drop_last());
        if is_document(entries.last()) {
            rest.push(entries.last().path@)
        } else {
            rest
        }
    }
}

/// Keeps the entries of a directory that are supported documents, in order.
pub fn documents_in(entries: Vec<Candidate>) -> (r: Vec<String>)
    ensures
        r@.map_values(|s: String| s@) == documents_spec(entries@),
{
    let ghost all = entries@;
    let mut entries = entries;
    let mut r: Vec<String> = Vec::new();
    let n = entries.len();
    let mut i: usize = 0;
    while i < n
        invariant
            n == all.len(),
            i <= n,
            entries@ == all,
            r@.map_values(|s: String| s@) == documents_spec(all.take(i as int)),
        decreases n - i,
    {
        let c = &entries[i];
        let keep = match &c.extension {
            Some(e) => is_document_extension(e.as_str()),
            None => false,
        };
        assert(all.take(i as int + 1).drop_last() =~= all.take(i as int));
        assert(all.take(i as int + 1).last() == all[i as int]);
        if keep {
            let p = c.path.clone();
            let ghost before = r@;
            r.push(p);
            assert(r@.map_values(|s: String| s@) =~= before.map_values(|s: String| s@).push(all[i as int].path@));
        }
        i = i + 1;
    }
    assert(all.take(n as int) =~= all);
    r
}

/// Checks a single input before it is rendered: its content must be recognised
/// as a supported document, and an output subdirectory name must be derivable
/// from its path.
pub fn check_document(extension: Option<&str>, has_stem: bool) -> (r: Result<(), PipelineError>)
    ensures
        r == (match extension {
            Some(e) if e@ == document_extension() => if has_stem {
                Ok::<(), PipelineError>(())
            } else {
                Err(PipelineError::MissingDocumentStem)
            },
            _ => Err(PipelineError::NotASupportedDocument),
        }),
{
    let supported = match extension {
        Some(e) => is_document_extension(e),
        None => false,
    };
    if !supported {
        Err(PipelineError::NotASupportedDocument)
    } else if !has_stem {
        Err(PipelineError::MissingDocumentStem)
    } else {
        Ok(())
    }
}

/// A run over the documents of a directory, processed one after another.
/// The first failure ends the run: no later document is processed.
#[derive(Clone, Copy, Debug, PartialEq, Eq, Structural)]
pub struct DocumentRun {
    pub total: usize,
    pub processed: usize,
    pub failed: bool,
}

impl DocumentRun {
    pub open spec fn wf(&self) -> bool {
        self.processed <= self.total
    }

    /// The document to process next: `None` after a failure or once all are done.
    pub open spec fn next_spec(&self) -> Option<usize> {
        if self.failed || self.processed >= self.total {
            None
        } else {
            Some(self.processed)
        }
    }

    /// A run over `total` documents, none processed yet.
    pub fn new(total: usize) -> (r: DocumentRun)
        ensures
            r.wf(),
            r == (DocumentRun { total, processed: 0, failed: false }),
    {
        DocumentRun { total, processed: 0, failed: false }
    }

    /// The index of the document to process next, if any.
    pub fn next(&self) -> (r: Option<usize>)
        ensures
            r == self.next_spec(),
    {
        if self.failed || self.processed >= self.total {
            None
        } else {
            Some(self.processed)
        }
    }

    /// Records how the document handed out by `next` went.
    pub fn record(&mut self, ok: bool)
        requires
            old(self).wf(),
            old(self).next_spec().is_some(),
        ensures
            final(self).wf(),
            *final(self) == (DocumentRun { processed: (old(self).processed + 1) as usize, failed: !ok, ..*old(self) }),
    {
        self.processed = self.processed + 1;
        self.failed = !ok;
    }
}

} // verus!
