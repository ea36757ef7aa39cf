use vstd::prelude::*;

use crate::text::same_text;

verus! {

/// The last choices of model, media file and output folder.
pub struct SelectedData {
    pub model: Option<String>,
    pub file_path: Option<String>,
    pub folder_path: Option<String>,
}

/// One update of the selection: `key` names the field, `value` its new
/// value.
pub struct MetaData {
    pub key: String,
    pub value: String,
}

pub open spec fn opt_view(o: Option<String>) -> Option<Seq<char>> {
    match o {
        Some(s) => Some(s@),
        None => None,
    }
}

impl View for SelectedData {
    type V = (Option<Seq<char>>, Option<Seq<char>>, Option<Seq<char>>);

    open spec fn view(&self) -> Self::V {
        (opt_view(self.model), opt_view(self.file_path), opt_view(self.folder_path))
    }
}

/// The model used where none is chosen.
pub open spec fn default_model() -> Seq<char> {
    "whisper"@
}

/// A stored model that is missing, empty or `"null"` counts as unset.
pub open spec fn model_unset(m: Option<Seq<char>>) -> bool {
    match m {
        Some(s) => s == ""@ || s == "null"@,
        None => true,
    }
}

/// The stored model with an unset one replaced by the default.
pub open spec fn settled_model(m: Option<Seq<char>>) -> Option<Seq<char>> {
    if model_unset(m) {
        Some(default_model())
    } else {
        m
    }
}

/// The model stored for a chosen value: empty, `"null"` and `"none"` choose
/// the default.
pub open spec fn chosen_model(value: Seq<char>) -> Seq<char> {
    if value == ""@ || value == "null"@ || value == "none"@ {
        default_model()
    } else {
        value
    }
}

/// The field that a key names.
#[derive(Clone, Copy, Debug, PartialEq, Eq, Structural)]
pub enum SelectionKey {
    Model,
    File,
    Folder,
}

pub open spec fn key_of(key: Seq<char>) -> Option<SelectionKey> {
    if key == "model"@ {
        Some(SelectionKey::Model)
    } else if key == "file"@ {
        Some(SelectionKey::File)
    } else if key == "folder"@ {
        Some(SelectionKey::Folder)
    } else {
        None
    }
}

/// Reads a key: `"model"`, `"file"` or `"folder"`; any other is none.
pub fn parse_key(key: &str) -> (r: Option<SelectionKey>)
    ensures
        r == key_of(key@),
{
    if same_text(key, "model") {
        Some(SelectionKey::Model)
    } else if same_text(key, "file") {
        Some(SelectionKey::File)
    } else if same_text(key, "folder") {
        Some(SelectionKey::Folder)
    } else {
        None
    }
}

/// A key that names no field of the selection.
pub struct UnknownKey {
    pub key: String,
}

impl UnknownKey {
    /// `"Unknown key: "` followed by the key.
    pub fn message(&self) -> (r: String)
        ensures
            r@ == "Unknown key: "@ + self.key@,
    {
        let mut s = String::from_str("Unknown key: ");
        s.append(self.key.as_str());
        s
    }
}

fn opt_clone(o: &Option<String>) -> (r: Option<String>)
    ensures
        opt_view(r) == opt_view(*o),
{
    match o {
        Some(s) => Some(s.clone()),
        None => None,
    }
}

fn settle_model(m: &Option<String>) -> (r: Option<String>)
    ensures
        opt_view(r) == settled_model(opt_view(*m)),
{
    match m {
        Some(s) => {
            if same_text(s.as_str(), "") || same_text(s.as_str(), "null") {
                Some(String::from_str("whisper"))
            } else {
                Some(s.clone())
            }
        },
        None => Some(String::from_str("whisper")),
    }
}

impl SelectedData {
    /// An empty selection: nothing chosen yet.
    pub fn empty() -> (r: SelectedData)
        ensures
            r@ == (None::<Seq<char>>, None::<Seq<char>>, None::<Seq<char>>),
    {
        SelectedData { model: None, file_path: None, folder_path: None }
    }
}

/// The selection after an update of `key` to `value`, starting from what
/// was stored (none when nothing was): an unset stored model becomes the
/// default, the named field takes the value, and an unset model after the
/// update becomes the default too.
pub open spec fn updated(
    stored: Option<(Option<Seq<char>>, Option<Seq<char>>, Option<Seq<char>>)>,
    key: SelectionKey,
    value: Seq<char>,
) -> (Option<Seq<char>>, Option<Seq<char>>, Option<Seq<char>>) {
    let base = match stored {
        Some(d) => (settled_model(d.0), d.1, d.2),
        None => (None, None, None),
    };
    match key {
        SelectionKey::Model => (Some(chosen_model(value)), base.1, base.2),
        SelectionKey::File => (settled_model(base.0), Some(value), base.2),
        SelectionKey::Folder => (settled_model(base.0), base.1, Some(value)),
    }
}

/// Applies one update to the stored selection (`None` when nothing is
/// stored yet). An unknown key is refused and nothing changes.
pub fn apply_selection(stored: Option<&SelectedData>, data: &MetaData) -> (r: Result<
    SelectedData,
    UnknownKey,
>)
    ensures
        key_of(data.key@).is_none() <==> r.is_err(),
        r matches Err(e) ==> e.key@ == data.key@,
        r matches Ok(d) ==> d@ == updated(
            match stored {
                Some(s) => Some(s@),
                None => None,
            },
            key_of(data.key@).unwrap(),
            data.value@,
        ),
{
    let key = match parse_key(data.key.as_str()) {
        Some(k) => k,
        None => {
            return Err(UnknownKey { key: data.key.clone() });
        },
    };
    let (model, file_path, folder_path) = match stored {
        Some(s) => (settle_model(&s.model), opt_clone(&s.file_path), opt_clone(&s.folder_path)),
        None => (None, None, None),
    };
    let v = data.value.as_str();
    let r = match key {
        SelectionKey::Model => {
            let m = if same_text(v, "") || same_text(v, "null") || same_text(v, "none") {
                String::from_str("whisper")
            } else {
                data.value.clone()
            };
            SelectedData { model: Some(m), file_path, folder_path }
        },
        SelectionKey::File => SelectedData {
            model: settle_model(&model),
            file_path: Some(data.value.clone()),
            folder_path,
        },
        SelectionKey::Folder => SelectedData {
            model: settle_model(&model),
            file_path,
            folder_path: Some(data.value.clone()),
        },
    };
    Ok(r)
}

/// The stored value for `key`: none when nothing is stored, an error for an
/// unknown key.
pub fn lookup_selection(stored: Option<&SelectedData>, key: &str) -> (r: Result<
    Option<String>,
    UnknownKey,
>)
    ensures
        stored.is_none() ==> r matches Ok(None),
        stored matches Some(s) ==> {
            &&& key_of(key@).is_none() <==> r.is_err()
            &&& r matches Err(e) ==> e.key@ == key@
            &&& r matches Ok(v) ==> opt_view(v) == match key_of(key@).unwrap() {
                SelectionKey::Model => s@.0,
                SelectionKey::File => s@.1,
                SelectionKey::Folder => s@.2,
            }
        },
{
    match stored {
        None => Ok(None),
        Some(s) => match parse_key(key) {
            Some(SelectionKey::Model) => Ok(opt_clone(&s.model)),
            Some(SelectionKey::File) => Ok(opt_clone(&s.file_path)),
            Some(SelectionKey::Folder) => Ok(opt_clone(&s.folder_path)),
            None => Err(UnknownKey { key: String::from_str(key) }),
        },
    }
}

} // verus!
