use vstd::prelude::*;

verus! {

/// Outcome of a clipboard operation.
#[derive(Debug, Clone)]
pub enum ClipboardResult {
    Success,
    Empty,
    Error(String),
}

impl ClipboardResult {
    /// The text shown for the outcome (what `Display` writes).
    pub fn message(&self) -> (text: String)
        ensures
            text@ == (match self {
                ClipboardResult::Success => "操作成功"@,
                ClipboardResult::Empty => "剪贴板为空"@,
                ClipboardResult::Error(e) => e@,
            }),
    {
        match self {
            ClipboardResult::Success => String::from_str("操作成功"),
            ClipboardResult::Empty => String::from_str("剪贴板为空"),
            ClipboardResult::Error(e) => e.clone(),
        }
    }
}

/// Status line after "copy": success, or the error text.
pub fn copy_status(outcome: Result<(), String>) -> (status: String)
    ensures
        status@ == (match outcome {
            Ok(_) => "已复制到剪贴板"@,
            Err(e) => "复制失败: "@ + e@,
        }),
{
    match outcome {
        Ok(_) => String::from_str("已复制到剪贴板"),
        Err(e) => {
            let mut status = String::from_str("复制失败: ");
            status.append(e.as_str());
            status
        },
    }
}

/// Status line after "clear": success, or the error text.
pub fn clear_status(outcome: Result<(), String>) -> (status: String)
    ensures
        status@ == (match outcome {
            Ok(_) => "已清空剪贴板"@,
            Err(e) => "清空失败: "@ + e@,
        }),
{
    match outcome {
        Ok(_) => String::from_str("已清空剪贴板"),
        Err(e) => {
            let mut status = String::from_str("清空失败: ");
            status.append(e.as_str());
            status
        },
    }
}

/// What "paste" puts in the window: the text read goes to the input field;
/// an error only changes the status line.
#[derive(Debug, Clone)]
pub struct PasteUpdate {
    pub input_text: Option<String>,
    pub status: String,
}

/// Decides what "paste" shows for what reading the clipboard gave.
pub fn paste_update(outcome: Result<String, String>) -> (update: PasteUpdate)
    ensures
        match outcome {
            Ok(text) => update.input_text matches Some(t) && t@ == text@ && update.status@
                == "已从剪贴板粘贴"@,
            Err(e) => update.input_text is None && update.status@ == "粘贴失败: "@ + e@,
        },
{
    match outcome {
        Ok(text) => PasteUpdate { input_text: Some(text), status: String::from_str("已从剪贴板粘贴") },
        Err(e) => {
            let mut status = String::from_str("粘贴失败: ");
            status.append(e.as_str());
            PasteUpdate { input_text: None, status }
        },
    }
}

#[verifier::external_type_specification]
#[verifier::external_body]
pub struct ExAnyhowError(anyhow::Error);

/// Platform-independent clipboard service, implemented by each platform.
///
/// `wrote` and `read_gave` record what the service's calls did: the logic
/// above the service relies on which text it handed to a write and on
/// which outcome came back.
pub trait ClipboardService: Send + Sync {
    /// A write of `text` took place and gave `outcome`. Code that is generic
    /// over the service knows no more of it than `set_text` states; the
    /// default, for platforms that state nothing more, holds of every write.
    closed spec fn wrote(&self, text: Seq<char>, outcome: Result<(), anyhow::Error>) -> bool {
        true
    }

    /// A read took place and gave `outcome`. As with `wrote`, the default
    /// holds of every read.
    closed spec fn read_gave(&self, outcome: Result<String, anyhow::Error>) -> bool {
        true
    }

    /// Reads the clipboard's text.
    fn get_text(&self) -> (outcome: anyhow::Result<String>)
        ensures
            self.read_gave(outcome),
    ;

    /// Writes text to the clipboard.
    fn set_text(&self, text: &str) -> (outcome: anyhow::Result<()>)
        ensures
            self.wrote(text@, outcome),
    ;
}

/// The text of an `anyhow::Error`, as its `Display` writes it (the outermost
/// context only). Nothing is stated of it: the error comes from the
/// platform.
#[verifier::external_body]
fn error_text(error: &anyhow::Error) -> String {
    format!("{error}")
}

/// The "copy" button: writes the input text and returns the status line.
/// Whether the write succeeds is the platform's affair; the status line
/// says which way it went.
pub fn copy_text<C: ClipboardService>(clipboard: &C, input: &str) -> (status: String)
    ensures
        exists|r: Result<(), anyhow::Error>|
            #[trigger] clipboard.wrote(input@, r) && (r is Ok ==> status@ == "已复制到剪贴板"@) && (
            r is Err ==> exists|e: Seq<char>| status@ == "复制失败: "@ + e),
{
    let outcome = match clipboard.set_text(input) {
        Ok(()) => Ok(()),
        Err(e) => Err(error_text(&e)),
    };
    copy_status(outcome)
}

/// The "clear" button: writes the empty text and returns the status line.
pub fn clear_text<C: ClipboardService>(clipboard: &C) -> (status: String)
    ensures
        exists|r: Result<(), anyhow::Error>|
            #[trigger] clipboard.wrote(Seq::<char>::empty(), r) && (r is Ok ==> status@
                == "已清空剪贴板"@) && (r is Err ==> exists|e: Seq<char>| status@ == "清空失败: "@
                + e),
{
    proof {
        reveal_strlit("");
        assert(""@ =~= Seq::<char>::empty());
    }
    let outcome = match clipboard.set_text("") {
        Ok(()) => Ok(()),
        Err(e) => Err(error_text(&e)),
    };
    clear_status(outcome)
}

/// The "paste" button: the text read goes to the input field, or the status
/// line reports the error.
pub fn paste_text<C: ClipboardService>(clipboard: &C) -> (update: PasteUpdate)
    ensures
        exists|r: Result<String, anyhow::Error>|
            #[trigger] clipboard.read_gave(r) && match r {
                Ok(text) => update.input_text matches Some(t) && t@ == text@ && update.status@
                    == "已从剪贴板粘贴"@,
                Err(_) => update.input_text is None && exists|e: Seq<char>| update.status@
                    == "粘贴失败: "@ + e,
            },
{
    let outcome = match clipboard.get_text() {
        Ok(text) => Ok(text),
        Err(e) => Err(error_text(&e)),
    };
    paste_update(outcome)
}

} // verus!
