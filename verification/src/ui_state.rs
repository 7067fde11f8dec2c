//! Small decisions of the desktop interface: OCR text selection, the
//! outcome of a model action and the outcome of an editor press.

use vstd::prelude::*;
use crate::ocr::{ocr_error_text, OcrError};
use crate::ocr_models::{catalog_index, catalog_views, OcrModelManager};
use crate::text::{concat2, concat3, decimal, decimal_string, join, join_strings, owned, trim, trimmed, views};

verus! {

broadcast use vstd::string::group_string_axioms;

/// The rows `start..=end` between the selection anchor and focus, when
/// both name rows of a list of `row_count` rows (negative: nothing chosen).
pub fn ocr_selection_range(anchor: i32, focus: i32, row_count: usize) -> (r: Option<(usize, usize)>)
    ensures
        (anchor < 0 || focus < 0 || row_count == 0) ==> r is None,
        !(anchor < 0 || focus < 0 || row_count == 0) ==> {
            let start = if anchor <= focus { anchor as int } else { focus as int };
            let end = if anchor <= focus { focus as int } else { anchor as int };
            if end < row_count {
                r == Some((start as usize, end as usize))
            } else {
                r is None
            }
        },
{
    if anchor < 0 || focus < 0 || row_count == 0 {
        return None;
    }
    let start = if anchor <= focus { anchor } else { focus } as usize;
    let end = if anchor <= focus { focus } else { anchor } as usize;
    if end < row_count {
        Some((start, end))
    } else {
        None
    }
}

/// The rows between the selection anchor and focus, first and last, when
/// both name rows of a list of `row_count` rows.
pub open spec fn selected_rows(anchor: int, focus: int, row_count: int) -> Option<(int, int)> {
    let start = if anchor <= focus {
        anchor
    } else {
        focus
    };
    let end = if anchor <= focus {
        focus
    } else {
        anchor
    };
    if anchor < 0 || focus < 0 || row_count == 0 || end >= row_count {
        None
    } else {
        Some((start, end))
    }
}

/// The texts that hold more than white space, in order.
pub open spec fn non_blank(texts: Seq<Seq<char>>) -> Seq<Seq<char>>
    decreases texts.len(),
{
    if texts.len() == 0 {
        Seq::empty()
    } else if trim(texts.last()).len() > 0 {
        non_blank(texts.drop_last()).push(texts.last())
    } else {
        non_blank(texts.drop_last())
    }
}

/// The text of the selected OCR rows: those that hold more than white
/// space, one per line, in reading order whichever way the selection was
/// made; empty without a selection.
pub open spec fn selection_text(texts: Seq<Seq<char>>, anchor: int, focus: int) -> Seq<char> {
    match selected_rows(anchor, focus, texts.len() as int) {
        None => Seq::empty(),
        Some((start, end)) => join(non_blank(texts.subrange(start, end + 1)), "\n"@),
    }
}

/// The text of the OCR rows `texts` between the selection anchor and
/// focus.
pub fn ocr_selection_text(texts: &Vec<String>, anchor: i32, focus: i32) -> (r: String)
    ensures
        r@ == selection_text(views(texts@), anchor as int, focus as int),
{
    let range = ocr_selection_range(anchor, focus, texts.len());
    let (start, end) = match range {
        None => {
            proof {
                reveal_strlit("");
            }
            return String::new();
        },
        Some(bounds) => bounds,
    };
    let ghost all = views(texts@);
    let n = texts.len();
    let mut kept: Vec<String> = Vec::new();
    let mut i: usize = start;
    while i <= end
        invariant
            start <= i <= end + 1,
            end < n == texts@.len(),
            all == views(texts@),
            views(kept@) == non_blank(all.subrange(start as int, i as int)),
        decreases end + 1 - i,
    {
        let ghost before = all.subrange(start as int, i as int);
        assert(all.subrange(start as int, i + 1).drop_last() =~= before);
        let text = trimmed(texts[i].as_str());
        if text.unicode_len() > 0 {
            kept.push(texts[i].clone());
            assert(views(kept@) =~= non_blank(before).push(texts@[i as int]@));
        }
        i += 1;
    }
    join_strings(&kept, "\n")
}

/// A selection reads the same whichever end it was started from.
pub proof fn selection_reads_the_same_both_ways(texts: Seq<Seq<char>>, anchor: int, focus: int)
    ensures
        selection_text(texts, anchor, focus) == selection_text(texts, focus, anchor),
{
}

/// How a model download, removal or activation ended.
#[derive(Clone, Debug, PartialEq, Eq)]
pub enum OcrActionResult {
    Succeeded,
    Cancelled(String),
    Failed(String),
}

/// How a model action ended, from its result: a cancellation keeps its
/// own message, other errors are shown with their full message.
pub fn map_action_result(result: Result<(), OcrError>) -> (r: OcrActionResult)
    ensures
        result is Ok ==> r == OcrActionResult::Succeeded,
        result matches Err(OcrError::Cancelled(m)) ==> (r matches OcrActionResult::Cancelled(n) && n@ == m@),
        (result matches Err(e) && !(e is Cancelled)) ==> (r matches OcrActionResult::Failed(n) && n@ == ocr_error_text(result->Err_0)),
{
    match result {
        Ok(()) => OcrActionResult::Succeeded,
        Err(OcrError::Cancelled(message)) => OcrActionResult::Cancelled(message),
        Err(error) => OcrActionResult::Failed(error.message()),
    }
}

/// The status after an on-screen recognition finished, or `None` when the
/// result belongs to an earlier capture (`event_epoch` differs from the
/// current one).  `result` is the number of text blocks found, or the
/// error.
pub fn recognition_status(current_epoch: i32, event_epoch: i32, result: Result<usize, &str>) -> (r:
    Option<String>)
    ensures
        current_epoch != event_epoch ==> r is None,
        current_epoch == event_epoch ==> (r matches Some(s) && s@ == match result {
            Ok(count) => if count == 0 {
                "Local OCR completed · no text found"@
            } else {
                "Local OCR completed · "@ + decimal(count as nat)
                    + " text blocks · OCR text layer is not exported"@
            },
            Err(error) => "Local OCR failed · "@ + error@,
        }),
{
    if current_epoch != event_epoch {
        return None;
    }
    match result {
        Ok(count) => if count == 0 {
            Some(owned("Local OCR completed · no text found"))
        } else {
            let n = decimal_string(count as u64);
            Some(concat3("Local OCR completed · ", n.as_str(), " text blocks · OCR text layer is not exported"))
        },
        Err(error) => Some(concat2("Local OCR failed · ", error)),
    }
}

/// The status after a capture of `width` by `height` pixels: `copied` is
/// the outcome of copying it to the clipboard, `None` when copying after
/// capture is switched off.
pub fn capture_status(width: u32, height: u32, copied: Option<Result<(), &str>>) -> (r: String)
    ensures
        ({
            let size = decimal(width as nat) + "×"@ + decimal(height as nat);
            r@ == "Captured "@ + size + match copied {
                None => " · ready to annotate"@,
                Some(Ok(())) => " · copied to clipboard · ready to annotate"@,
                Some(Err(error)) => " · clipboard failed: "@ + error@ + " · ready to annotate"@,
            }
        }),
{
    let w = decimal_string(width as u64);
    let h = decimal_string(height as u64);
    let mut status = concat3("Captured ", w.as_str(), "×");
    status.append(h.as_str());
    match copied {
        None => status.append(" · ready to annotate"),
        Some(Ok(())) => status.append(" · copied to clipboard · ready to annotate"),
        Some(Err(error)) => {
            status.append(" · clipboard failed: ");
            status.append(error);
            status.append(" · ready to annotate");
        },
    }
    status
}

/// The largest of the numbers present, 0 when there is none.
pub open spec fn largest_number(numbers: Seq<Option<u32>>) -> int
    decreases numbers.len(),
{
    if numbers.len() == 0 {
        0
    } else {
        let rest = largest_number(numbers.drop_last());
        match numbers.last() {
            Some(n) => if n > rest {
                n as int
            } else {
                rest
            },
            None => rest,
        }
    }
}

/// The number the next sequence marker gets: one more than the largest
/// marker number in the document (`numbers` holds each annotation's marker
/// number, if it is a marker), kept at `u32::MAX` once it is reached.
pub fn next_sequence_number(numbers: &Vec<Option<u32>>) -> (r: u32)
    ensures
        r == if largest_number(numbers@) < u32::MAX {
            largest_number(numbers@) + 1
        } else {
            u32::MAX as int
        },
{
    let mut largest: u32 = 0;
    let mut i: usize = 0;
    while i < numbers.len()
        invariant
            i <= numbers@.len(),
            largest == largest_number(numbers@.take(i as int)),
        decreases numbers.len() - i,
    {
        assert(numbers@.take(i + 1).drop_last() =~= numbers@.take(i as int));
        match numbers[i] {
            Some(n) => if n > largest {
                largest = n;
            },
            None => {},
        }
        i += 1;
    }
    assert(numbers@.take(numbers@.len() as int) =~= numbers@);
    largest.saturating_add(1)
}

/// A model action that finished.
#[derive(Clone, Copy, Debug, PartialEq, Eq, Structural)]
pub enum OcrModelAction {
    Install,
    Remove,
}

/// What becomes of the model error shown on the settings page.
#[derive(Clone, Debug)]
pub enum ModelErrorDisplay {
    Keep,
    Clear,
    Show { model_id: String, text: String },
}

/// The name a model is shown by: its catalog name, else "OCR model".
pub open spec fn model_display_name(model_id: Seq<char>) -> Seq<char> {
    match catalog_index(model_id) {
        Some(i) => catalog_views()[i].name,
        None => "OCR model"@,
    }
}

/// The status, and what becomes of the shown model error, after `action`
/// on the model `model_id` ended with `result`.
pub fn model_action_feedback(model_id: &str, action: OcrModelAction, result: &OcrActionResult) -> (r: (
    String,
    ModelErrorDisplay,
))
    ensures
        ({
            let name = model_display_name(model_id@);
            match (action, *result) {
                (OcrModelAction::Install, OcrActionResult::Succeeded) => r.0@ == "Downloaded "@ + name
                    + " · select Enable to use it for OCR"@ && r.1 is Clear,
                (OcrModelAction::Remove, OcrActionResult::Succeeded) => r.0@
                    == "Removed OCR model · "@ + name && r.1 is Keep,
                (OcrModelAction::Install, OcrActionResult::Cancelled(_)) => r.0@
                    == "Download cancelled · "@ + name + " remains disabled"@ && r.1 is Keep,
                (OcrModelAction::Install, OcrActionResult::Failed(error)) => r.0@
                    == "OCR model download failed · "@ + error@ && (r.1 matches ModelErrorDisplay::Show {
                    model_id: id,
                    text,
                } && id@ == model_id@ && text@ == error@),
                (OcrModelAction::Remove, OcrActionResult::Failed(error)) => r.0@
                    == "OCR model removal failed · "@ + error@ && r.1 is Keep,
                (OcrModelAction::Remove, OcrActionResult::Cancelled(message)) => r.0@
                    == "OCR model removal cancelled · "@ + message@ && r.1 is Keep,
            }
        }),
{
    let name = match OcrModelManager::descriptor(model_id) {
        Some(descriptor) => descriptor.name,
        None => "OCR model",
    };
    proof {
        reveal_strlit("OCR model");
    }
    match (action, result) {
        (OcrModelAction::Install, OcrActionResult::Succeeded) => (
            concat3("Downloaded ", name, " · select Enable to use it for OCR"),
            ModelErrorDisplay::Clear,
        ),
        (OcrModelAction::Remove, OcrActionResult::Succeeded) => (
            concat2("Removed OCR model · ", name),
            ModelErrorDisplay::Keep,
        ),
        (OcrModelAction::Install, OcrActionResult::Cancelled(_)) => (
            concat3("Download cancelled · ", name, " remains disabled"),
            ModelErrorDisplay::Keep,
        ),
        (OcrModelAction::Install, OcrActionResult::Failed(error)) => (
            concat2("OCR model download failed · ", error.as_str()),
            ModelErrorDisplay::Show { model_id: owned(model_id), text: owned(error.as_str()) },
        ),
        (OcrModelAction::Remove, OcrActionResult::Failed(error)) => (
            concat2("OCR model removal failed · ", error.as_str()),
            ModelErrorDisplay::Keep,
        ),
        (OcrModelAction::Remove, OcrActionResult::Cancelled(message)) => (
            concat2("OCR model removal cancelled · ", message.as_str()),
            ModelErrorDisplay::Keep,
        ),
    }
}

/// What a press on the editor canvas started.
#[derive(Clone, Copy, Debug, PartialEq, Eq, Structural)]
pub enum BeginResult {
    Drawing,
    TextInput,
    TextEdit,
    Ignored,
}

} // verus!
