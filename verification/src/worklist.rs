//! The plain create, read, update and delete commands of every entity
//! kind. The host performs the store access; each command reports what the
//! store answered.
use vstd::prelude::*;
use crate::models::{
    ApiResponse, HL7MessageSetting, Hl7SettingEntry, MimEntry, MppsEntry, PatientEntry,
    WorklistEntry,
};
use crate::records::{
    created, creation, listing, removal, removed, revised, revision, selected, selection, Lookup,
    Table,
};

verus! {

/// Reports the creation of an HL7 connection profile.
pub fn create_hl7_setting_entry(
    answer: Result<Vec<Hl7SettingEntry>, String>,
) -> (response: ApiResponse<Hl7SettingEntry>)
    ensures
        response@ == creation(Table::Hl7Setting, answer),
{
    created(Table::Hl7Setting, answer)
}

/// Reports the read of an HL7 connection profile, or of all of them.
pub fn read_hl7_setting_entry(
    lookup: Lookup<Hl7SettingEntry>,
) -> (response: ApiResponse<Vec<Hl7SettingEntry>>)
    ensures
        listing(response) == selection(Table::Hl7Setting, lookup),
{
    selected(Table::Hl7Setting, lookup)
}

/// Reports the update of an HL7 connection profile.
pub fn update_hl7_setting_entry(
    answer: Result<Option<Hl7SettingEntry>, String>,
) -> (response: ApiResponse<Hl7SettingEntry>)
    ensures
        response@ == revision(Table::Hl7Setting, answer),
{
    revised(Table::Hl7Setting, answer)
}

/// Reports the deletion of an HL7 connection profile.
pub fn delete_hl7_setting_entry(
    answer: Result<Option<Hl7SettingEntry>, String>,
) -> (response: ApiResponse<Hl7SettingEntry>)
    ensures
        response@ == removal(Table::Hl7Setting, answer),
{
    removed(Table::Hl7Setting, answer)
}

/// Reports the creation of a storage-destination profile.
pub fn create_mim_entry(answer: Result<Vec<MimEntry>, String>) -> (response: ApiResponse<MimEntry>)
    ensures
        response@ == creation(Table::Mim, answer),
{
    created(Table::Mim, answer)
}

/// Reports the read of a storage-destination profile, or of all of them.
pub fn read_mim_entry(lookup: Lookup<MimEntry>) -> (response: ApiResponse<Vec<MimEntry>>)
    ensures
        listing(response) == selection(Table::Mim, lookup),
{
    selected(Table::Mim, lookup)
}

/// Reports the update of a storage-destination profile.
pub fn update_mim_entry(
    answer: Result<Option<MimEntry>, String>,
) -> (response: ApiResponse<MimEntry>)
    ensures
        response@ == revision(Table::Mim, answer),
{
    revised(Table::Mim, answer)
}

/// Reports the deletion of a storage-destination profile.
pub fn delete_mim_entry(
    answer: Result<Option<MimEntry>, String>,
) -> (response: ApiResponse<MimEntry>)
    ensures
        response@ == removal(Table::Mim, answer),
{
    removed(Table::Mim, answer)
}

/// Reports the creation of a worklist entry.
pub fn create_worklist_entry(
    answer: Result<Vec<WorklistEntry>, String>,
) -> (response: ApiResponse<WorklistEntry>)
    ensures
        response@ == creation(Table::Worklist, answer),
{
    created(Table::Worklist, answer)
}

/// Reports the read of a worklist entry, or of all of them.
pub fn read_worklist_entry(
    lookup: Lookup<WorklistEntry>,
) -> (response: ApiResponse<Vec<WorklistEntry>>)
    ensures
        listing(response) == selection(Table::Worklist, lookup),
{
    selected(Table::Worklist, lookup)
}

/// Reports the update of a worklist entry.
pub fn update_worklist_entry(
    answer: Result<Option<WorklistEntry>, String>,
) -> (response: ApiResponse<WorklistEntry>)
    ensures
        response@ == revision(Table::Worklist, answer),
{
    revised(Table::Worklist, answer)
}

/// Reports the deletion of a worklist entry.
pub fn delete_worklist_entry(
    answer: Result<Option<WorklistEntry>, String>,
) -> (response: ApiResponse<WorklistEntry>)
    ensures
        response@ == removal(Table::Worklist, answer),
{
    removed(Table::Worklist, answer)
}

/// Reports the creation of an HL7 message template.
pub fn create_hl7_message_setting(
    answer: Result<Vec<HL7MessageSetting>, String>,
) -> (response: ApiResponse<HL7MessageSetting>)
    ensures
        response@ == creation(Table::Hl7MessageSetting, answer),
{
    created(Table::Hl7MessageSetting, answer)
}

/// Reports the read of an HL7 message template, or of all of them.
pub fn read_hl7_message_setting(
    lookup: Lookup<HL7MessageSetting>,
) -> (response: ApiResponse<Vec<HL7MessageSetting>>)
    ensures
        listing(response) == selection(Table::Hl7MessageSetting, lookup),
{
    selected(Table::Hl7MessageSetting, lookup)
}

/// Reports the update of an HL7 message template.
pub fn update_hl7_message_setting(
    answer: Result<Option<HL7MessageSetting>, String>,
) -> (response: ApiResponse<HL7MessageSetting>)
    ensures
        response@ == revision(Table::Hl7MessageSetting, answer),
{
    revised(Table::Hl7MessageSetting, answer)
}

/// Reports the deletion of an HL7 message template.
pub fn delete_hl7_message_setting(
    answer: Result<Option<HL7MessageSetting>, String>,
) -> (response: ApiResponse<HL7MessageSetting>)
    ensures
        response@ == removal(Table::Hl7MessageSetting, answer),
{
    removed(Table::Hl7MessageSetting, answer)
}

/// Reports the creation of a patient study.
pub fn create_patient_entry(
    answer: Result<Vec<PatientEntry>, String>,
) -> (response: ApiResponse<PatientEntry>)
    ensures
        response@ == creation(Table::Patient, answer),
{
    created(Table::Patient, answer)
}

/// Reports the read of a patient study, or of all of them.
pub fn read_patient_entry(
    lookup: Lookup<PatientEntry>,
) -> (response: ApiResponse<Vec<PatientEntry>>)
    ensures
        listing(response) == selection(Table::Patient, lookup),
{
    selected(Table::Patient, lookup)
}

/// Reports the update of a patient study.
pub fn update_patient_entry(
    answer: Result<Option<PatientEntry>, String>,
) -> (response: ApiResponse<PatientEntry>)
    ensures
        response@ == revision(Table::Patient, answer),
{
    revised(Table::Patient, answer)
}

/// Reports the deletion of a patient study.
pub fn delete_patient_entry(
    answer: Result<Option<PatientEntry>, String>,
) -> (response: ApiResponse<PatientEntry>)
    ensures
        response@ == removal(Table::Patient, answer),
{
    removed(Table::Patient, answer)
}

/// Reports the read of a performed-procedure record, or of all of them.
pub fn read_mpps_entry(lookup: Lookup<MppsEntry>) -> (response: ApiResponse<Vec<MppsEntry>>)
    ensures
        listing(response) == selection(Table::Mpps, lookup),
{
    selected(Table::Mpps, lookup)
}

} // verus!
