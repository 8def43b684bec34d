use arboard::Clipboard as SystemClipboard;
use vstd::prelude::*;

verus! {

#[verifier::external_type_specification]
#[verifier::external_body]
pub struct ExSystemClipboard(SystemClipboard);

/// Relies on `arboard::Clipboard::new`: a handle on the system clipboard, or
/// nothing where the system offers none.
#[verifier::external_body]
fn open_system_clipboard() -> (r: Option<SystemClipboard>) {
    SystemClipboard::new().ok()
}

/// The text last handed to a system clipboard handle through its `set_text`.
pub uninterp spec fn text_handed_to(system: SystemClipboard) -> Option<Seq<char>>;

/// Relies on `arboard::Clipboard::get_text`: the clipboard's text, or nothing
/// where it holds none or cannot be read; reading hands no text to it.
#[verifier::external_body]
fn system_get_text(system: &mut SystemClipboard) -> (r: Option<String>)
    ensures
        text_handed_to(*final(system)) == text_handed_to(*old(system)),
{
    system.get_text().ok()
}

/// Relies on `arboard::Clipboard::set_text`: hands the text to the system
/// clipboard, and tells whether it was stored.
#[verifier::external_body]
fn system_set_text(system: &mut SystemClipboard, text: String) -> (r: bool)
    ensures
        text_handed_to(*final(system)) == Some(text@),
{
    system.set_text(text).is_ok()
}

/// What a clipboard is, seen from the library: whether the system clipboard
/// backs it, the text last handed to the system clipboard, and the text of
/// the in-process clipboard used otherwise.
pub struct ClipboardView {
    pub has_system: bool,
    pub handed: Option<Seq<char>>,
    pub fallback: Seq<char>,
}

/// Text clipboard: the system clipboard where one could be opened, otherwise
/// an in-process string.
pub struct Clipboard {
    system: Option<SystemClipboard>,
    fallback: String,
}

impl View for Clipboard {
    type V = ClipboardView;

    closed spec fn view(&self) -> ClipboardView {
        ClipboardView {
            has_system: self.system is Some,
            handed: match self.system {
                Some(system) => text_handed_to(system),
                None => None,
            },
            fallback: self.fallback@,
        }
    }
}

impl Default for Clipboard {
    /// Opens the system clipboard; the in-process one starts empty.
    fn default() -> (r: Self)
        ensures
            r@.fallback == Seq::<char>::empty(),
    {
        Clipboard { system: open_system_clipboard(), fallback: String::new() }
    }
}

impl Clipboard {
    /// A clipboard that never touches the system clipboard.
    pub fn in_memory() -> (r: Self)
        ensures
            !r@.has_system,
            r@.handed is None,
            r@.fallback == Seq::<char>::empty(),
    {
        Clipboard { system: None, fallback: String::new() }
    }

    /// The clipboard's text. Without a system clipboard this is the last text
    /// set; with one, whatever the system gives, and `None` where reading fails.
    pub fn get(&mut self) -> (r: Option<String>)
        ensures
            final(self)@ == old(self)@,
            !old(self)@.has_system ==> r is Some && r->Some_0@ == old(self)@.fallback,
    {
        match &mut self.system {
            Some(system) => system_get_text(system),
            None => Some(self.fallback.clone()),
        }
    }

    /// Stores `text`: hands it to the system clipboard where there is one (a
    /// failure there is dropped), otherwise keeps it in the in-process one.
    pub fn set(&mut self, text: String)
        ensures
            final(self)@ == spec_after_set(old(self)@, text@),
    {
        match &mut self.system {
            Some(system) => {
                let _stored = system_set_text(system, text);
            },
            None => {
                self.fallback = text;
            },
        }
    }
}

/// What `set` leaves in a clipboard, seen from the library.
pub open spec fn spec_after_set(v: ClipboardView, text: Seq<char>) -> ClipboardView {
    if v.has_system {
        ClipboardView { handed: Some(text), ..v }
    } else {
        ClipboardView { fallback: text, ..v }
    }
}

/// Without a system clipboard, text that was set is what `get` gives next;
/// with one, it is the text handed to the system clipboard.
pub proof fn lemma_set_then_get(v: ClipboardView, text: Seq<char>)
    ensures
        spec_after_set(v, text).has_system == v.has_system,
        !v.has_system ==> spec_after_set(v, text).fallback == text,
        v.has_system ==> spec_after_set(v, text).handed == Some(text),
{
}

} // verus!
