//! The record store as the commands see it: its collections, and the
//! response that each plain create, read, update and delete reports for
//! what the store answered.
use vstd::prelude::*;
use vstd::string::StringExecFns;
use crate::failure::{absent, rejection, store_rejected, Failure};
use crate::models::{ApiResponse, ApiResponseView};
use crate::text::join;

verus! {

/// The independently addressed collections of the record store.
#[derive(Debug, Clone, Copy, PartialEq, Eq, Structural)]
pub enum Table {
    Worklist,
    Mpps,
    Mim,
    Patient,
    Hl7Setting,
    Hl7MessageSetting,
}

/// What the store answered to a read: of one key, or of a whole collection.
/// An `Err` carries the store's own message.
#[derive(Debug)]
pub enum Lookup<T> {
    One(Result<Option<T>, String>),
    All(Result<Vec<T>, String>),
}

impl Table {
    /// The name under which the store addresses the collection.
    pub open spec fn name_text(self) -> Seq<char> {
        match self {
            Table::Worklist => "worklist"@,
            Table::Mpps => "mpps"@,
            Table::Mim => "mim"@,
            Table::Patient => "patient"@,
            Table::Hl7Setting => "hl7_setting"@,
            Table::Hl7MessageSetting => "hl7_message_setting"@,
        }
    }

    /// How the collection's entities are called at the start of a sentence.
    pub open spec fn title_stem(self) -> Seq<char> {
        match self {
            Table::Worklist => "Worklist"@,
            Table::Mpps => "mpps"@,
            Table::Mim => "Mim"@,
            Table::Patient => "Patient"@,
            Table::Hl7Setting => "HL7 setting"@,
            Table::Hl7MessageSetting => "HL7 message setting"@,
        }
    }

    /// How the collection's entities are called inside a sentence.
    pub open spec fn noun_stem(self) -> Seq<char> {
        match self {
            Table::Worklist => "worklist"@,
            Table::Mpps => "mpps"@,
            Table::Mim => "mim"@,
            Table::Patient => "patient"@,
            Table::Hl7Setting => "HL7 setting"@,
            Table::Hl7MessageSetting => "HL7 message setting"@,
        }
    }

    /// One entity, at the start of a sentence.
    pub open spec fn title(self) -> Seq<char> {
        self.title_stem() + " entry"@
    }

    /// Several entities, at the start of a sentence.
    pub open spec fn titles(self) -> Seq<char> {
        self.title_stem() + " entries"@
    }

    /// One entity, inside a sentence.
    pub open spec fn noun(self) -> Seq<char> {
        self.noun_stem() + " entry"@
    }

    /// Several entities, inside a sentence.
    pub open spec fn nouns(self) -> Seq<char> {
        self.noun_stem() + " entries"@
    }

    /// The name under which the store addresses the collection.
    pub fn name(&self) -> (name: &'static str)
        ensures
            name@ == self.name_text(),
    {
        match self {
            Table::Worklist => "worklist",
            Table::Mpps => "mpps",
            Table::Mim => "mim",
            Table::Patient => "patient",
            Table::Hl7Setting => "hl7_setting",
            Table::Hl7MessageSetting => "hl7_message_setting",
        }
    }

    fn title_word(&self) -> (stem: &'static str)
        ensures
            stem@ == self.title_stem(),
    {
        match self {
            Table::Worklist => "Worklist",
            Table::Mpps => "mpps",
            Table::Mim => "Mim",
            Table::Patient => "Patient",
            Table::Hl7Setting => "HL7 setting",
            Table::Hl7MessageSetting => "HL7 message setting",
        }
    }

    fn noun_word(&self) -> (stem: &'static str)
        ensures
            stem@ == self.noun_stem(),
    {
        match self {
            Table::Worklist => "worklist",
            Table::Mpps => "mpps",
            Table::Mim => "mim",
            Table::Patient => "patient",
            Table::Hl7Setting => "HL7 setting",
            Table::Hl7MessageSetting => "HL7 message setting",
        }
    }

    /// The entity's name at the start of a sentence, and `tail`.
    pub(crate) fn titled(&self, several: bool, tail: &str) -> (message: String)
        ensures
            message@ == (if several { self.titles() } else { self.title() }) + tail@,
    {
        let mut message = join(self.title_word(), if several { " entries" } else { " entry" });
        message.append(tail);
        message
    }

    /// `head` and the entity's name inside a sentence.
    pub(crate) fn named(&self, head: &str, several: bool) -> (message: String)
        ensures
            message@ == head@ + (if several { self.nouns() } else { self.noun() }),
    {
        let mut message = join(head, self.noun_word());
        message.append(if several { " entries" } else { " entry" });
        proof {
            let word = if several { " entries"@ } else { " entry"@ };
            assert(head@ + self.noun_stem() + word =~= head@ + (self.noun_stem() + word));
        }
        message
    }

    /// `head`, the entity's name inside a sentence, and `tail`.
    pub(crate) fn phrase(&self, head: &str, several: bool, tail: &str) -> (message: String)
        ensures
            message@ == head@ + (if several { self.nouns() } else { self.noun() }) + tail@,
    {
        let mut message = join(head, self.noun_word());
        message.append(if several { " entries" } else { " entry" });
        message.append(tail);
        proof {
            let word = if several { " entries"@ } else { " entry"@ };
            assert(head@ + self.noun_stem() + word + tail@ =~= head@ + (self.noun_stem() + word)
                + tail@);
        }
        message
    }
}

/// The successful response that carries `data` under `message`.
pub open spec fn accepted<T>(message: Seq<char>, data: T) -> ApiResponseView<T> {
    ApiResponseView { success: true, message, data: Some(data), error: None }
}

/// A response that lists entities, with the list as a sequence.
pub open spec fn listing<T>(response: ApiResponse<Vec<T>>) -> ApiResponseView<Seq<T>> {
    ApiResponseView {
        success: response.success,
        message: response.message@,
        data: match response.data {
            Some(rows) => Some(rows@),
            None => None,
        },
        error: response@.error,
    }
}

/// What is reported for a create: the first entity that the store returned;
/// a store that returned none, or refused, is a persistence failure.
pub open spec fn creation<T>(table: Table, answer: Result<Vec<T>, String>) -> ApiResponseView<T> {
    match answer {
        Ok(rows) => if rows@.len() > 0 {
            accepted(table.title() + " created successfully"@, rows@[0])
        } else {
            rejection(
                store_rejected(
                    "Failed to create "@ + table.noun() + ", no entries returned"@,
                    "no entity returned"@,
                ),
            )
        },
        Err(reason) => rejection(store_rejected("Failed to create "@ + table.noun(), reason@)),
    }
}

/// What is reported for a read: the entity found as a list of one, or the
/// whole collection; nothing found is reported as absence.
pub open spec fn selection<T>(table: Table, lookup: Lookup<T>) -> ApiResponseView<Seq<T>> {
    match lookup {
        Lookup::One(Ok(Some(entity))) => accepted(table.title() + " found"@, seq![entity]),
        Lookup::One(Ok(None)) => rejection(absent("No "@ + table.noun() + " found"@)),
        Lookup::One(Err(reason)) => rejection(
            store_rejected("Failed to read "@ + table.noun(), reason@),
        ),
        Lookup::All(Ok(rows)) => if rows@.len() > 0 {
            accepted(table.titles() + " found"@, rows@)
        } else {
            rejection(absent("No "@ + table.nouns() + " found"@))
        },
        Lookup::All(Err(reason)) => rejection(
            store_rejected("Failed to read "@ + table.nouns(), reason@),
        ),
    }
}

/// What is reported for an update: the entity as the store now holds it; a
/// key that did not exist is reported as absence.
pub open spec fn revision<T>(
    table: Table,
    answer: Result<Option<T>, String>,
) -> ApiResponseView<T> {
    match answer {
        Ok(Some(entity)) => accepted(table.title() + " updated successfully"@, entity),
        Ok(None) => rejection(absent("No "@ + table.noun() + " found to update"@)),
        Err(reason) => rejection(store_rejected("Failed to update "@ + table.noun(), reason@)),
    }
}

/// What is reported for a delete: the entity that was removed; a key that
/// did not exist is reported as absence.
pub open spec fn removal<T>(table: Table, answer: Result<Option<T>, String>) -> ApiResponseView<T> {
    match answer {
        Ok(Some(entity)) => accepted(table.title() + " deleted successfully"@, entity),
        Ok(None) => rejection(absent("No "@ + table.noun() + " found to delete"@)),
        Err(reason) => rejection(store_rejected("Failed to delete "@ + table.noun(), reason@)),
    }
}

/// Reports a create on `table`.
pub fn created<T>(table: Table, answer: Result<Vec<T>, String>) -> (response: ApiResponse<T>)
    ensures
        response@ == creation(table, answer),
{
    match answer {
        Ok(rows) => {
            let mut rows = rows;
            if rows.len() > 0 {
                let first = rows.remove(0);
                let message = table.titled(false, " created successfully");
                ApiResponse::success(message.as_str(), Some(first))
            } else {
                let message = table.phrase("Failed to create ", false, ", no entries returned");
                Failure::persistence(message, String::from_str("no entity returned")).respond()
            }
        },
        Err(reason) => {
            let message = table.named("Failed to create ", false);
            Failure::persistence(message, reason).respond()
        },
    }
}

/// Reports a read on `table`.
pub fn selected<T>(table: Table, lookup: Lookup<T>) -> (response: ApiResponse<Vec<T>>)
    ensures
        listing(response) == selection(table, lookup),
{
    match lookup {
        Lookup::One(Ok(Some(entity))) => {
            let message = table.titled(false, " found");
            let mut rows: Vec<T> = Vec::new();
            rows.push(entity);
            assert(rows@ =~= seq![entity]);
            ApiResponse::success(message.as_str(), Some(rows))
        },
        Lookup::One(Ok(None)) => {
            Failure::not_found(table.phrase("No ", false, " found")).respond()
        },
        Lookup::One(Err(reason)) => {
            let message = table.named("Failed to read ", false);
            Failure::persistence(message, reason).respond()
        },
        Lookup::All(Ok(rows)) => {
            if rows.len() > 0 {
                let message = table.titled(true, " found");
                ApiResponse::success(message.as_str(), Some(rows))
            } else {
                Failure::not_found(table.phrase("No ", true, " found")).respond()
            }
        },
        Lookup::All(Err(reason)) => {
            let message = table.named("Failed to read ", true);
            Failure::persistence(message, reason).respond()
        },
    }
}

/// Reports an update on `table`.
pub fn revised<T>(table: Table, answer: Result<Option<T>, String>) -> (response: ApiResponse<T>)
    ensures
        response@ == revision(table, answer),
{
    match answer {
        Ok(Some(entity)) => {
            let message = table.titled(false, " updated successfully");
            ApiResponse::success(message.as_str(), Some(entity))
        },
        Ok(None) => Failure::not_found(table.phrase("No ", false, " found to update")).respond(),
        Err(reason) => {
            let message = table.named("Failed to update ", false);
            Failure::persistence(message, reason).respond()
        },
    }
}

/// Reports a delete on `table`.
pub fn removed<T>(table: Table, answer: Result<Option<T>, String>) -> (response: ApiResponse<T>)
    ensures
        response@ == removal(table, answer),
{
    match answer {
        Ok(Some(entity)) => {
            let message = table.titled(false, " deleted successfully");
            ApiResponse::success(message.as_str(), Some(entity))
        },
        Ok(None) => Failure::not_found(table.phrase("No ", false, " found to delete")).respond(),
        Err(reason) => {
            let message = table.named("Failed to delete ", false);
            Failure::persistence(message, reason).respond()
        },
    }
}

} // verus!
