//! Tickets and the validated values they are made of.

use crate::decimal::{append_decimal, decimal, decimal_text};
use vstd::prelude::*;
use vstd::string::StringExecFns;

verus! {

/// The largest number of bytes a title may take.
pub const TITLE_MAX_BYTES: usize = 50;

/// The largest number of bytes a description may take.
pub const DESCRIPTION_MAX_BYTES: usize = 500;

/// The number of bytes that `text` takes in UTF-8.
pub open spec fn byte_len(text: Seq<char>) -> nat {
    vstd::utf8::encode_utf8(text).len()
}

/// The handle under which a ticket is stored: any 64-bit number.
#[derive(Debug, Clone, Copy, PartialEq, Eq, PartialOrd, Ord, Hash, Structural)]
pub struct TicketId(u64);

impl View for TicketId {
    type V = u64;

    /// The number behind the handle.
    closed spec fn view(&self) -> u64 {
        self.0
    }
}

impl TicketId {
    /// The number behind the handle.
    pub fn value(&self) -> (number: u64)
        ensures
            number == self@,
    {
        self.0
    }

    /// The number behind the handle in decimal digits.
    pub fn to_string(&self) -> (text: String)
        ensures
            text@ == decimal(self@ as nat),
    {
        decimal_text(self.0)
    }

    /// Two handles with the same number are the same handle.
    pub proof fn lemma_same_number_same_id(a: TicketId, b: TicketId)
        requires
            a@ == b@,
        ensures
            a == b,
    {
    }
}

impl From<u64> for TicketId {
    fn from(value: u64) -> (id: Self)
        ensures
            id@ == value,
    {
        TicketId(value)
    }
}

impl vstd::std_specs::convert::FromSpecImpl<u64> for TicketId {
    open spec fn obeys_from_spec() -> bool {
        true
    }

    closed spec fn from_spec(value: u64) -> Self {
        TicketId(value)
    }
}

/// Why a raw value was turned down, together with that value.
#[derive(Debug, PartialEq)]
pub enum TicketParseError {
    /// The text names no status.
    StatusParseError(String),
    /// The text takes more bytes than a title may.
    TitleTooLongError(String),
    /// The text takes more bytes than a description may.
    DebugTooLongError(String),
    /// A title must hold at least one byte.
    TitleEmptyError(String),
    /// A description must hold at least one byte.
    DebugEmptyError(String),
}

/// A parse error with the characters of the rejected text in place of the text.
pub enum TicketParseErrorView {
    StatusParseError(Seq<char>),
    TitleTooLongError(Seq<char>),
    DebugTooLongError(Seq<char>),
    TitleEmptyError(Seq<char>),
    DebugEmptyError(Seq<char>),
}

impl View for TicketParseError {
    type V = TicketParseErrorView;

    open spec fn view(&self) -> TicketParseErrorView {
        match self {
            TicketParseError::StatusParseError(raw) => TicketParseErrorView::StatusParseError(raw@),
            TicketParseError::TitleTooLongError(raw) => TicketParseErrorView::TitleTooLongError(
                raw@,
            ),
            TicketParseError::DebugTooLongError(raw) => TicketParseErrorView::DebugTooLongError(
                raw@,
            ),
            TicketParseError::TitleEmptyError(raw) => TicketParseErrorView::TitleEmptyError(raw@),
            TicketParseError::DebugEmptyError(raw) => TicketParseErrorView::DebugEmptyError(raw@),
        }
    }
}

impl Clone for TicketParseError {
    fn clone(&self) -> (copy: Self)
        ensures
            copy == *self,
    {
        match self {
            TicketParseError::StatusParseError(raw) => TicketParseError::StatusParseError(
                raw.clone(),
            ),
            TicketParseError::TitleTooLongError(raw) => TicketParseError::TitleTooLongError(
                raw.clone(),
            ),
            TicketParseError::DebugTooLongError(raw) => TicketParseError::DebugTooLongError(
                raw.clone(),
            ),
            TicketParseError::TitleEmptyError(raw) => TicketParseError::TitleEmptyError(
                raw.clone(),
            ),
            TicketParseError::DebugEmptyError(raw) => TicketParseError::DebugEmptyError(
                raw.clone(),
            ),
        }
    }
}

impl TicketParseErrorView {
    /// The rejected text.
    pub open spec fn rejected(self) -> Seq<char> {
        match self {
            TicketParseErrorView::StatusParseError(raw) => raw,
            TicketParseErrorView::TitleTooLongError(raw) => raw,
            TicketParseErrorView::DebugTooLongError(raw) => raw,
            TicketParseErrorView::TitleEmptyError(raw) => raw,
            TicketParseErrorView::DebugEmptyError(raw) => raw,
        }
    }

    /// What is wrong with the rejected text, in words.
    pub open spec fn reason(self) -> Seq<char> {
        match self {
            TicketParseErrorView::StatusParseError(_) => "` is not a valid status, lowercase should be one of these, todo, inprogress, done"@,
            TicketParseErrorView::TitleTooLongError(_) => "` is too long, for a title, max bytes is 50 btyes"@,
            TicketParseErrorView::DebugTooLongError(_) => "` is too long, for a description, max bytes is 500 bytes"@,
            TicketParseErrorView::TitleEmptyError(_) => "` is empty, for a title, min bytes is 1 byte"@,
            TicketParseErrorView::DebugEmptyError(_) => "` is empty, for a description, min bytes is 1 byte"@,
        }
    }

    /// The error in words: the rejected text between backticks, then what is wrong with it.
    pub open spec fn message(self) -> Seq<char> {
        "`"@ + self.rejected() + self.reason()
    }
}

impl TicketParseError {
    /// The error in words: the rejected text between backticks, then what is wrong with it.
    pub fn to_string(&self) -> (text: String)
        ensures
            text@ == self@.message(),
    {
        let mut text = String::from_str("`");
        match self {
            TicketParseError::StatusParseError(raw) => {
                text.append(raw.as_str());
                text.append(
                    "` is not a valid status, lowercase should be one of these, todo, inprogress, done",
                );
            },
            TicketParseError::TitleTooLongError(raw) => {
                text.append(raw.as_str());
                text.append("` is too long, for a title, max bytes is 50 btyes");
            },
            TicketParseError::DebugTooLongError(raw) => {
                text.append(raw.as_str());
                text.append("` is too long, for a description, max bytes is 500 bytes");
            },
            TicketParseError::TitleEmptyError(raw) => {
                text.append(raw.as_str());
                text.append("` is empty, for a title, min bytes is 1 byte");
            },
            TicketParseError::DebugEmptyError(raw) => {
                text.append(raw.as_str());
                text.append("` is empty, for a description, min bytes is 1 byte");
            },
        }
        text
    }
}

/// A result with both sides replaced by their views.
pub open spec fn result_view<T: View, E: View>(result: Result<T, E>) -> Result<T::V, E::V> {
    match result {
        Ok(value) => Ok(value@),
        Err(error) => Err(error@),
    }
}

/// Whether `text` can be a title: at least one character, at most 50 bytes.
pub open spec fn valid_title(text: Seq<char>) -> bool {
    text.len() > 0 && byte_len(text) <= TITLE_MAX_BYTES
}

/// What parsing `raw` as a title gives: the text itself where it is valid, else the reason.
pub open spec fn parse_title(raw: Seq<char>) -> Result<Seq<char>, TicketParseErrorView> {
    if raw.len() == 0 {
        Err(TicketParseErrorView::TitleEmptyError(raw))
    } else if byte_len(raw) > TITLE_MAX_BYTES {
        Err(TicketParseErrorView::TitleTooLongError(raw))
    } else {
        Ok(raw)
    }
}

/// The title of a ticket: a text of 1 to 50 bytes.
#[derive(Debug, PartialEq, PartialOrd)]
pub struct TicketTitle(String);

impl View for TicketTitle {
    type V = Seq<char>;

    /// The characters of the title.
    closed spec fn view(&self) -> Seq<char> {
        self.0@
    }
}

impl TicketTitle {
    #[verifier::type_invariant]
    spec fn within_bounds(self) -> bool {
        valid_title(self.0@)
    }

    /// The text of the title.
    pub fn as_str(&self) -> (text: &str)
        ensures
            text@ == self@,
            valid_title(text@),
    {
        proof {
            use_type_invariant(self);
        }
        self.0.as_str()
    }
}

impl Clone for TicketTitle {
    fn clone(&self) -> (copy: Self)
        ensures
            copy == *self,
    {
        proof {
            use_type_invariant(self);
        }
        TicketTitle(self.0.clone())
    }
}

impl TryFrom<&str> for TicketTitle {
    type Error = TicketParseError;

    /// Accepts `value` as a title where it holds 1 to 50 bytes, and says why where it does not.
    fn try_from(value: &str) -> (result: Result<Self, TicketParseError>)
        ensures
            result_view(result) == parse_title(value@),
    {
        if value.is_empty() {
            return Err(TicketParseError::TitleEmptyError(value.to_owned()));
        }
        if value.as_bytes().len() > TITLE_MAX_BYTES {
            return Err(TicketParseError::TitleTooLongError(value.to_owned()));
        }
        Ok(TicketTitle(value.to_owned()))
    }
}

impl vstd::std_specs::convert::TryFromSpecImpl<&str> for TicketTitle {
    /// The contract stands on `try_from` itself, over views.
    open spec fn obeys_try_from_spec() -> bool {
        false
    }

    open spec fn try_from_spec(value: &str) -> Result<Self, TicketParseError> {
        arbitrary()
    }
}

impl vstd::std_specs::convert::TryFromSpecImpl<String> for TicketTitle {
    /// The contract stands on `try_from` itself, over views.
    open spec fn obeys_try_from_spec() -> bool {
        false
    }

    open spec fn try_from_spec(value: String) -> Result<Self, TicketParseError> {
        arbitrary()
    }
}

impl TryFrom<String> for TicketTitle {
    type Error = TicketParseError;

    /// Accepts `value` as a title where it holds 1 to 50 bytes, and says why where it does not.
    fn try_from(value: String) -> (result: Result<Self, TicketParseError>)
        ensures
            result_view(result) == parse_title(value@),
    {
        TicketTitle::try_from(value.as_str())
    }
}

/// Whether `text` can be a description: at least one character, at most 500 bytes.
pub open spec fn valid_description(text: Seq<char>) -> bool {
    text.len() > 0 && byte_len(text) <= DESCRIPTION_MAX_BYTES
}

/// What parsing `raw` as a description gives: the text itself where it is valid, else the
/// reason.
pub open spec fn parse_description(raw: Seq<char>) -> Result<Seq<char>, TicketParseErrorView> {
    if raw.len() == 0 {
        Err(TicketParseErrorView::DebugEmptyError(raw))
    } else if byte_len(raw) > DESCRIPTION_MAX_BYTES {
        Err(TicketParseErrorView::DebugTooLongError(raw))
    } else {
        Ok(raw)
    }
}

/// The description of a ticket: a text of 1 to 500 bytes.
#[derive(Debug, PartialEq, PartialOrd)]
pub struct TicketDescription(String);

impl View for TicketDescription {
    type V = Seq<char>;

    /// The characters of the description.
    closed spec fn view(&self) -> Seq<char> {
        self.0@
    }
}

impl TicketDescription {
    #[verifier::type_invariant]
    spec fn within_bounds(self) -> bool {
        valid_description(self.0@)
    }

    /// The text of the description.
    pub fn as_str(&self) -> (text: &str)
        ensures
            text@ == self@,
            valid_description(text@),
    {
        proof {
            use_type_invariant(self);
        }
        self.0.as_str()
    }
}

impl Clone for TicketDescription {
    fn clone(&self) -> (copy: Self)
        ensures
            copy == *self,
    {
        proof {
            use_type_invariant(self);
        }
        TicketDescription(self.0.clone())
    }
}

impl TryFrom<&str> for TicketDescription {
    type Error = TicketParseError;

    /// Accepts `value` as a description where it holds 1 to 500 bytes, and says why where it
    /// does not.
    fn try_from(value: &str) -> (result: Result<Self, TicketParseError>)
        ensures
            result_view(result) == parse_description(value@),
    {
        if value.is_empty() {
            return Err(TicketParseError::DebugEmptyError(value.to_owned()));
        }
        if value.as_bytes().len() > DESCRIPTION_MAX_BYTES {
            return Err(TicketParseError::DebugTooLongError(value.to_owned()));
        }
        Ok(TicketDescription(value.to_owned()))
    }
}

impl vstd::std_specs::convert::TryFromSpecImpl<&str> for TicketDescription {
    /// The contract stands on `try_from` itself, over views.
    open spec fn obeys_try_from_spec() -> bool {
        false
    }

    open spec fn try_from_spec(value: &str) -> Result<Self, TicketParseError> {
        arbitrary()
    }
}

impl vstd::std_specs::convert::TryFromSpecImpl<String> for TicketDescription {
    /// The contract stands on `try_from` itself, over views.
    open spec fn obeys_try_from_spec() -> bool {
        false
    }

    open spec fn try_from_spec(value: String) -> Result<Self, TicketParseError> {
        arbitrary()
    }
}

impl TryFrom<String> for TicketDescription {
    type Error = TicketParseError;

    /// Accepts `value` as a description where it holds 1 to 500 bytes, and says why where it
    /// does not.
    fn try_from(value: String) -> (result: Result<Self, TicketParseError>)
        ensures
            result_view(result) == parse_description(value@),
    {
        TicketDescription::try_from(value.as_str())
    }
}

/// How far work on a ticket has come.
#[derive(Debug, Clone, Copy, PartialEq, Eq, PartialOrd, Structural)]
pub enum TicketStatus {
    ToDo,
    InProgress,
    Done,
}

impl View for TicketStatus {
    type V = TicketStatus;

    open spec fn view(&self) -> TicketStatus {
        *self
    }
}

/// `c` with an upper-case ASCII letter replaced by its lower-case form.
pub open spec fn ascii_lower(c: char) -> char {
    if 'A' <= c <= 'Z' {
        ((c as u32) + 32) as char
    } else {
        c
    }
}

/// `text` with every upper-case ASCII letter replaced by its lower-case form.
pub open spec fn fold_case(text: Seq<char>) -> Seq<char> {
    text.map_values(|c: char| ascii_lower(c))
}

/// The token of `ToDo`.
pub open spec fn todo_token() -> Seq<char> {
    seq!['t', 'o', 'd', 'o']
}

/// The token of `InProgress`.
pub open spec fn in_progress_token() -> Seq<char> {
    seq!['i', 'n', 'p', 'r', 'o', 'g', 'r', 'e', 's', 's']
}

/// The token of `Done`.
pub open spec fn done_token() -> Seq<char> {
    seq!['d', 'o', 'n', 'e']
}

/// The status that `raw` names, letter case aside, if it names one. Only ASCII letters are
/// folded: no character outside ASCII has a lower-case form made of letters of the three
/// tokens, so nothing else could come to spell one of them.
pub open spec fn status_named(raw: Seq<char>) -> Option<TicketStatus> {
    let folded = fold_case(raw);
    if folded == todo_token() {
        Some(TicketStatus::ToDo)
    } else if folded == in_progress_token() {
        Some(TicketStatus::InProgress)
    } else if folded == done_token() {
        Some(TicketStatus::Done)
    } else {
        None
    }
}

/// What parsing `raw` as a status gives: the status it names, else the rejected text.
pub open spec fn parse_status(raw: Seq<char>) -> Result<TicketStatus, TicketParseErrorView> {
    match status_named(raw) {
        Some(status) => Ok(status),
        None => Err(TicketParseErrorView::StatusParseError(raw)),
    }
}

/// `c` with an upper-case ASCII letter replaced by its lower-case form.
fn lower(c: char) -> (folded: char)
    ensures
        folded == ascii_lower(c),
{
    if 'A' <= c && c <= 'Z' {
        ((c as u8) + 32) as char
    } else {
        c
    }
}

/// Whether `raw` spells `token` once its upper-case ASCII letters are read as lower-case ones.
fn spells(raw: &str, token: &str) -> (same: bool)
    ensures
        same == (fold_case(raw@) == token@),
{
    let n = raw.unicode_len();
    if n != token.unicode_len() {
        return false;
    }
    let mut i: usize = 0;
    while i < n
        invariant
            n == raw@.len(),
            n == token@.len(),
            i <= n,
            forall|j: int| 0 <= j < i ==> ascii_lower(raw@[j]) == token@[j],
        decreases n - i,
    {
        if lower(raw.get_char(i)) != token.get_char(i) {
            assert(fold_case(raw@)[i as int] != token@[i as int]);
            return false;
        }
        i += 1;
    }
    assert(fold_case(raw@) =~= token@);
    true
}

impl TryFrom<&str> for TicketStatus {
    type Error = TicketParseError;

    /// Reads `value` as one of `todo`, `inprogress` and `done`, in any letter case.
    fn try_from(value: &str) -> (result: Result<Self, TicketParseError>)
        ensures
            result_view(result) == parse_status(value@),
    {
        proof {
            reveal_strlit("todo");
            reveal_strlit("inprogress");
            reveal_strlit("done");
            assert("todo"@ =~= todo_token());
            assert("inprogress"@ =~= in_progress_token());
            assert("done"@ =~= done_token());
        }
        if spells(value, "todo") {
            Ok(TicketStatus::ToDo)
        } else if spells(value, "inprogress") {
            Ok(TicketStatus::InProgress)
        } else if spells(value, "done") {
            Ok(TicketStatus::Done)
        } else {
            Err(TicketParseError::StatusParseError(value.to_owned()))
        }
    }
}

impl vstd::std_specs::convert::TryFromSpecImpl<&str> for TicketStatus {
    /// The contract stands on `try_from` itself, over views.
    open spec fn obeys_try_from_spec() -> bool {
        false
    }

    open spec fn try_from_spec(value: &str) -> Result<Self, TicketParseError> {
        arbitrary()
    }
}

impl vstd::std_specs::convert::TryFromSpecImpl<String> for TicketStatus {
    /// The contract stands on `try_from` itself, over views.
    open spec fn obeys_try_from_spec() -> bool {
        false
    }

    open spec fn try_from_spec(value: String) -> Result<Self, TicketParseError> {
        arbitrary()
    }
}

impl TryFrom<String> for TicketStatus {
    type Error = TicketParseError;

    /// Reads `value` as one of `todo`, `inprogress` and `done`, in any letter case.
    fn try_from(value: String) -> (result: Result<Self, TicketParseError>)
        ensures
            result_view(result) == parse_status(value@),
    {
        TicketStatus::try_from(value.as_str())
    }
}

/// A unit of work: a handle, two texts and how far the work has come.
#[derive(Debug, PartialEq, PartialOrd)]
pub struct Ticket {
    pub title: TicketTitle,
    pub description: TicketDescription,
    pub id: TicketId,
    pub status: TicketStatus,
}

/// A ticket as plain values: the number of its handle and the characters of its texts.
pub struct TicketView {
    pub id: u64,
    pub title: Seq<char>,
    pub description: Seq<char>,
    pub status: TicketStatus,
}

impl View for Ticket {
    type V = TicketView;

    open spec fn view(&self) -> TicketView {
        TicketView {
            id: self.id@,
            title: self.title@,
            description: self.description@,
            status: self.status,
        }
    }
}

/// The fields of one ticket to replace; a field left out stays as it is.
#[derive(Debug, PartialEq, PartialOrd)]
pub struct TicketPatch {
    pub id: TicketId,
    pub title: Option<TicketTitle>,
    pub description: Option<TicketDescription>,
    pub status: Option<TicketStatus>,
}

/// A patch as plain values.
pub struct TicketPatchView {
    pub id: u64,
    pub title: Option<Seq<char>>,
    pub description: Option<Seq<char>>,
    pub status: Option<TicketStatus>,
}

impl View for TicketPatch {
    type V = TicketPatchView;

    open spec fn view(&self) -> TicketPatchView {
        TicketPatchView {
            id: self.id@,
            title: match self.title {
                Some(title) => Some(title@),
                None => None,
            },
            description: match self.description {
                Some(description) => Some(description@),
                None => None,
            },
            status: self.status,
        }
    }
}

/// A patch was meant for another ticket than the one it was applied to.
#[derive(Debug, Clone, Copy, PartialEq, Eq, PartialOrd, Structural)]
pub struct TicketUpdateError {
    pub original_id: TicketId,
    pub patch_id: TicketId,
}

impl TicketUpdateError {
    /// The error in words, with both handles in decimal digits.
    pub open spec fn message(self) -> Seq<char> {
        "Ticket ID mismatch, original: "@ + decimal(self.original_id@ as nat) + ", patch: "@
            + decimal(self.patch_id@ as nat)
    }

    /// The error in words, with both handles in decimal digits.
    pub fn to_string(&self) -> (text: String)
        ensures
            text@ == self.message(),
    {
        let mut text = String::from_str("Ticket ID mismatch, original: ");
        append_decimal(&mut text, self.original_id.value());
        text.append(", patch: ");
        append_decimal(&mut text, self.patch_id.value());
        text
    }
}

impl TicketView {
    /// The ticket with each field that `patch` holds put in place of its own.
    pub open spec fn patched(self, patch: TicketPatchView) -> TicketView {
        TicketView {
            id: self.id,
            title: match patch.title {
                Some(title) => title,
                None => self.title,
            },
            description: match patch.description {
                Some(description) => description,
                None => self.description,
            },
            status: match patch.status {
                Some(status) => status,
                None => self.status,
            },
        }
    }
}

impl Clone for Ticket {
    fn clone(&self) -> (copy: Self)
        ensures
            copy == *self,
    {
        Ticket {
            title: self.title.clone(),
            description: self.description.clone(),
            id: self.id,
            status: self.status,
        }
    }
}

impl Clone for TicketPatch {
    fn clone(&self) -> (copy: Self)
        ensures
            copy == *self,
    {
        TicketPatch {
            id: self.id,
            title: match &self.title {
                Some(title) => Some(title.clone()),
                None => None,
            },
            description: match &self.description {
                Some(description) => Some(description.clone()),
                None => None,
            },
            status: self.status,
        }
    }
}

impl Ticket {
    /// A ticket made of the four given parts.
    pub fn new(
        id: TicketId,
        title: TicketTitle,
        description: TicketDescription,
        status: TicketStatus,
    ) -> (ticket: Self)
        ensures
            ticket.id == id,
            ticket.title == title,
            ticket.description == description,
            ticket.status == status,
    {
        Ticket { id, title, description, status }
    }

    /// Applies `patch` where it is meant for this ticket, and changes nothing where it is
    /// not.
    pub fn update(&mut self, patch: TicketPatch) -> (result: Result<(), TicketUpdateError>)
        ensures
            old(self).id == patch.id ==> result is Ok && final(self)@ == old(self)@.patched(
                patch@,
            ) && final(self).id == old(self).id,
            old(self).id != patch.id ==> *final(self) == *old(self) && result == Err::<
                (),
                TicketUpdateError,
            >(TicketUpdateError { original_id: old(self).id, patch_id: patch.id }),
    {
        if self.id != patch.id {
            return Err(TicketUpdateError { original_id: self.id, patch_id: patch.id });
        }
        if let Some(title) = patch.title {
            self.title = title;
        }
        if let Some(description) = patch.description {
            self.description = description;
        }
        if let Some(status) = patch.status {
            self.status = status;
        }
        Ok(())
    }
}

impl TicketPatch {
    /// A patch for the ticket `id` made of the three given replacements.
    pub fn new(
        id: TicketId,
        title: Option<TicketTitle>,
        description: Option<TicketDescription>,
        status: Option<TicketStatus>,
    ) -> (patch: Self)
        ensures
            patch.id == id,
            patch.title == title,
            patch.description == description,
            patch.status == status,
    {
        TicketPatch { id, title, description, status }
    }
}

/// A text takes no byte exactly where it has no character.
pub proof fn lemma_no_bytes_no_characters(text: Seq<char>)
    ensures
        byte_len(text) == 0 <==> text.len() == 0,
{
    if text.len() > 0 {
        vstd::utf8::encode_utf8_first_scalar(text);
    }
}

/// A text that can be a title is accepted as it is, and so is one that can be a
/// description: what is read back from the value made is the text that went in.
pub proof fn lemma_valid_text_is_kept(raw: Seq<char>)
    ensures
        valid_title(raw) <==> parse_title(raw) == Ok::<Seq<char>, TicketParseErrorView>(raw),
        valid_description(raw) <==> parse_description(raw) == Ok::<
            Seq<char>,
            TicketParseErrorView,
        >(raw),
{
}

/// The empty text is turned down as empty, both as a title and as a description.
pub proof fn lemma_empty_text_is_rejected()
    ensures
        parse_title(Seq::<char>::empty()) == Err::<Seq<char>, TicketParseErrorView>(
            TicketParseErrorView::TitleEmptyError(Seq::<char>::empty()),
        ),
        parse_description(Seq::<char>::empty()) == Err::<Seq<char>, TicketParseErrorView>(
            TicketParseErrorView::DebugEmptyError(Seq::<char>::empty()),
        ),
{
}

/// A text is turned down as too long exactly where it takes more bytes than the limit: 51
/// bytes are too many for a title and 501 for a description, while 50 and 500 are accepted.
pub proof fn lemma_length_limits(raw: Seq<char>)
    ensures
        byte_len(raw) > TITLE_MAX_BYTES <==> parse_title(raw) == Err::<
            Seq<char>,
            TicketParseErrorView,
        >(TicketParseErrorView::TitleTooLongError(raw)),
        byte_len(raw) > DESCRIPTION_MAX_BYTES <==> parse_description(raw) == Err::<
            Seq<char>,
            TicketParseErrorView,
        >(TicketParseErrorView::DebugTooLongError(raw)),
        1 <= byte_len(raw) <= TITLE_MAX_BYTES ==> parse_title(raw) is Ok,
        1 <= byte_len(raw) <= DESCRIPTION_MAX_BYTES ==> parse_description(raw) is Ok,
{
    lemma_no_bytes_no_characters(raw);
}

/// Folding the letter case changes no text that is already folded.
pub proof fn lemma_fold_case_twice(text: Seq<char>)
    ensures
        fold_case(fold_case(text)) == fold_case(text),
{
    assert forall|c: char| ascii_lower(ascii_lower(c)) == ascii_lower(c) by {
        if 'A' <= c <= 'Z' {
            assert('a' <= ascii_lower(c) <= 'z');
        }
    }
    assert(fold_case(fold_case(text)) =~= fold_case(text));
}

/// The three tokens name their statuses, and a text names a status exactly where it is one of
/// the tokens once its letter case is folded.
pub proof fn lemma_status_tokens(raw: Seq<char>)
    ensures
        status_named(todo_token()) == Some(TicketStatus::ToDo),
        status_named(in_progress_token()) == Some(TicketStatus::InProgress),
        status_named(done_token()) == Some(TicketStatus::Done),
        status_named(raw) is Some <==> fold_case(raw) == todo_token() || fold_case(raw)
            == in_progress_token() || fold_case(raw) == done_token(),
        parse_status(raw) is Err <==> status_named(raw) is None,
{
    assert(fold_case(todo_token()) =~= todo_token());
    assert(fold_case(in_progress_token()) =~= in_progress_token());
    assert(fold_case(done_token()) =~= done_token());
    assert(todo_token().len() != in_progress_token().len());
    assert(todo_token()[0] != done_token()[0]);
    assert(done_token().len() != in_progress_token().len());
}

/// Two texts that differ in the case of ASCII letters only name the same status, or both
/// name none.
pub proof fn lemma_status_ignores_letter_case(first: Seq<char>, second: Seq<char>)
    requires
        fold_case(first) == fold_case(second),
    ensures
        status_named(first) == status_named(second),
        status_named(fold_case(first)) == status_named(first),
{
    lemma_fold_case_twice(first);
}

} // verus!
