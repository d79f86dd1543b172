//! The local list of device records and the rule that creates or updates
//! an entry of it.
//!
//! The list is kept in a file that may not exist yet. [`ConfigStore`] is
//! that file's content as a value: the application reads the file into
//! one, applies an operation, and writes the result back.

use vstd::prelude::*;
use crate::device::{Device, Libra};
use crate::error::{AppError, MenuError};

verus! {

/// Some record of `records` belongs to `device`.
pub open spec fn holds(records: Seq<Libra>, device: Device) -> bool {
    exists|i: int| 0 <= i < records.len() && (#[trigger] records[i]).device == device
}

/// `i` is the place of the first record of `records` that belongs to
/// `device`.
pub open spec fn is_position(records: Seq<Libra>, device: Device, i: int) -> bool {
    &&& 0 <= i < records.len()
    &&& records[i].device == device
    &&& forall|j: int| 0 <= j < i ==> (#[trigger] records[j]).device != device
}

/// The place of the first record that belongs to `device`; meaningful
/// where [`holds`] is true.
pub open spec fn position(records: Seq<Libra>, device: Device) -> int {
    choose|i: int| is_position(records, device, i)
}

/// No two records of `records` belong to the same device.
pub open spec fn distinct(records: Seq<Libra>) -> bool {
    forall|i: int, j: int|
        0 <= i < j < records.len() ==> (#[trigger] records[i]).device != (
        #[trigger] records[j]).device
}

/// A device has at most one first place in a list.
pub proof fn lemma_position_unique(records: Seq<Libra>, device: Device, i: int)
    requires
        is_position(records, device, i),
    ensures
        position(records, device) == i,
        holds(records, device),
{
    let p = position(records, device);
    assert(is_position(records, device, p));
    if p < i {
        assert(records[p].device != device);
    } else if i < p {
        assert(records[i].device != device);
    }
}

/// A device that a list holds has a first place in it.
pub proof fn lemma_held_has_position(records: Seq<Libra>, device: Device)
    requires
        holds(records, device),
    ensures
        is_position(records, device, position(records, device)),
{
    let w = choose|i: int| 0 <= i < records.len() && (#[trigger] records[i]).device == device;
    lemma_first_below(records, device, w);
}

proof fn lemma_first_below(records: Seq<Libra>, device: Device, w: int)
    requires
        0 <= w < records.len(),
        records[w].device == device,
    ensures
        exists|i: int| is_position(records, device, i),
    decreases w,
{
    if exists|j: int| 0 <= j < w && (#[trigger] records[j]).device == device {
        let j = choose|j: int| 0 <= j < w && (#[trigger] records[j]).device == device;
        lemma_first_below(records, device, j);
    } else {
        assert(is_position(records, device, w));
    }
}

/// Looks for the first record that belongs to `device`.
pub fn find(records: &Vec<Libra>, device: Device) -> (found: Option<usize>)
    ensures
        match found {
            Some(i) => is_position(records@, device, i as int),
            None => !holds(records@, device),
        },
{
    let mut i: usize = 0;
    while i < records.len()
        invariant
            i <= records.len(),
            forall|j: int| 0 <= j < i ==> (#[trigger] records@[j]).device != device,
        decreases records.len() - i,
    {
        if records[i].device == device {
            return Some(i);
        }
        i += 1;
    }
    None
}

/// Content of the file that backs the device list: `None` while the file
/// does not exist, else its records in the order in which they were added.
pub struct ConfigStore {
    pub records: Option<Vec<Libra>>,
}

impl View for ConfigStore {
    type V = Option<Seq<Libra>>;

    open spec fn view(&self) -> Option<Seq<Libra>> {
        match self.records {
            Some(records) => Some(records@),
            None => None,
        }
    }
}

/// What [`ConfigStore::add`] makes of a list and a record: the list
/// afterwards and the outcome.
pub open spec fn added(content: Option<Seq<Libra>>, record: Libra) -> (
    Option<Seq<Libra>>,
    Result<(), MenuError>,
) {
    match content {
        None => (content, Err(MenuError::FileNotFound)),
        Some(records) => if holds(records, record.device) {
            (content, Err(MenuError::LibraAlreadyExists))
        } else {
            (Some(records.push(record)), Ok(()))
        },
    }
}

/// What [`ConfigStore::edit`] makes of a list and a record.
pub open spec fn edited(content: Option<Seq<Libra>>, record: Libra) -> (
    Option<Seq<Libra>>,
    Result<(), MenuError>,
) {
    match content {
        None => (content, Err(MenuError::FileNotFound)),
        Some(records) => if holds(records, record.device) {
            (Some(records.update(position(records, record.device), record)), Ok(()))
        } else {
            (content, Err(MenuError::LibraNotFound))
        },
    }
}

/// What [`ConfigStore::remove`] makes of a list and a device.
pub open spec fn removed(content: Option<Seq<Libra>>, device: Device) -> (
    Option<Seq<Libra>>,
    Result<(), MenuError>,
) {
    match content {
        None => (content, Err(MenuError::FileNotFound)),
        Some(records) => if holds(records, device) {
            (Some(records.remove(position(records, device))), Ok(()))
        } else {
            (content, Err(MenuError::LibraNotFound))
        },
    }
}

/// Corrective action after a failed attempt to add a record.
#[derive(Clone, Copy, Debug, PartialEq, Eq, Structural)]
pub enum Fallback {
    /// The file is missing: create it with the record as its only entry.
    CreateNew,
    /// The device is stored already: overwrite its entry.
    Edit,
    /// Nothing can be done: report the failure as it is.
    Propagate,
}

/// The corrective action that belongs to each failure of an add.
pub open spec fn fallback_of(error: MenuError) -> Fallback {
    match error {
        MenuError::FileNotFound => Fallback::CreateNew,
        MenuError::LibraAlreadyExists => Fallback::Edit,
        _ => Fallback::Propagate,
    }
}

/// Decides what to do after an add failed with `error`.
pub fn fallback_for(error: &MenuError) -> (action: Fallback)
    ensures
        action == fallback_of(*error),
{
    match error {
        MenuError::FileNotFound => Fallback::CreateNew,
        MenuError::LibraAlreadyExists => Fallback::Edit,
        _ => Fallback::Propagate,
    }
}

/// What creating or updating `record` makes of a list: a missing file comes
/// into being with the record alone, a stored device gets the record in its
/// old place, and any other record is appended.
pub open spec fn reconciled(content: Option<Seq<Libra>>, record: Libra) -> Seq<Libra> {
    match content {
        None => seq![record],
        Some(records) => if holds(records, record.device) {
            records.update(position(records, record.device), record)
        } else {
            records.push(record)
        },
    }
}

/// The change by which a record was created or updated, so that whoever
/// keeps the file can make the same change to it.
#[derive(Clone, Copy, Debug, PartialEq, Eq, Structural)]
pub enum Applied {
    /// The file was missing and came into being with the record alone.
    Created,
    /// The record was appended.
    Added,
    /// The record replaced the entry of its device.
    Edited,
}

/// The change that creating or updating an entry of `device` makes to a
/// list.
pub open spec fn applied_to(content: Option<Seq<Libra>>, device: Device) -> Applied {
    match content {
        None => Applied::Created,
        Some(records) => if holds(records, device) {
            Applied::Edited
        } else {
            Applied::Added
        },
    }
}

impl ConfigStore {
    /// No device has more than one entry.
    pub open spec fn well_formed(&self) -> bool {
        self@ matches Some(records) ==> distinct(records)
    }

    /// The store of a file that does not exist.
    pub fn absent() -> (store: ConfigStore)
        ensures
            store@ is None,
            store.well_formed(),
    {
        ConfigStore { records: None }
    }

    /// Turns the outcome of reading the file into a store. A missing file is
    /// a store without content; any other failure is handed back unchanged.
    pub fn from_read(outcome: Result<Vec<Libra>, MenuError>) -> (store: Result<
        ConfigStore,
        MenuError,
    >)
        ensures
            match outcome {
                Ok(records) => store matches Ok(s) && s@ == Some(records@),
                Err(MenuError::FileNotFound) => store matches Ok(s) && s@ is None,
                Err(error) => store == Err::<ConfigStore, MenuError>(error),
            },
    {
        match outcome {
            Ok(records) => Ok(ConfigStore { records: Some(records) }),
            Err(MenuError::FileNotFound) => Ok(ConfigStore { records: None }),
            Err(error) => Err(error),
        }
    }

    /// Returns the stored records in order. Fails with `FileNotFound` while
    /// the file does not exist, which is not the same as an empty list.
    pub fn list(&self) -> (listed: Result<Vec<Libra>, MenuError>)
        ensures
            match self@ {
                Some(records) => listed matches Ok(copy) && copy@ == records,
                None => listed == Err::<Vec<Libra>, MenuError>(MenuError::FileNotFound),
            },
    {
        match &self.records {
            None => Err(MenuError::FileNotFound),
            Some(records) => {
                let mut copy: Vec<Libra> = Vec::new();
                let mut i: usize = 0;
                while i < records.len()
                    invariant
                        i <= records.len(),
                        copy@ == records@.take(i as int),
                    decreases records.len() - i,
                {
                    copy.push(records[i]);
                    i += 1;
                }
                assert(records@.take(records.len() as int) == records@);
                Ok(copy)
            },
        }
    }

    /// Appends `record`. Fails with `FileNotFound` while the file does not
    /// exist and with `LibraAlreadyExists` where the device is stored
    /// already; a failure leaves the store as it was.
    pub fn add(&mut self, record: Libra) -> (outcome: Result<(), MenuError>)
        ensures
            (final(self)@, outcome) == added(old(self)@, record),
            old(self).well_formed() ==> final(self).well_formed(),
    {
        proof {
            if let Some(records) = self@ {
                if distinct(records) {
                    lemma_add_edit_keep_distinct(records, record);
                }
            }
        }
        match self.records.take() {
            None => Err(MenuError::FileNotFound),
            Some(mut records) => {
                let found = find(&records, record.device);
                let outcome = if found.is_some() {
                    Err(MenuError::LibraAlreadyExists)
                } else {
                    records.push(record);
                    Ok(())
                };
                self.records = Some(records);
                outcome
            },
        }
    }

    /// Overwrites the entry of `record`'s device in its place. Fails with
    /// `FileNotFound` while the file does not exist and with `LibraNotFound`
    /// where the device is not stored; a failure leaves the store as it was.
    pub fn edit(&mut self, record: Libra) -> (outcome: Result<(), MenuError>)
        ensures
            (final(self)@, outcome) == edited(old(self)@, record),
            old(self).well_formed() ==> final(self).well_formed(),
    {
        proof {
            if let Some(records) = self@ {
                if distinct(records) {
                    lemma_add_edit_keep_distinct(records, record);
                }
            }
        }
        match self.records.take() {
            None => Err(MenuError::FileNotFound),
            Some(mut records) => {
                let outcome = match find(&records, record.device) {
                    Some(i) => {
                        proof {
                            lemma_position_unique(records@, record.device, i as int);
                        }
                        records[i] = record;
                        Ok(())
                    },
                    None => Err(MenuError::LibraNotFound),
                };
                self.records = Some(records);
                outcome
            },
        }
    }

    /// Takes the entry of `device` out; the entries behind it move up.
    /// Fails with `FileNotFound` while the file does not exist and with
    /// `LibraNotFound` where the device is not stored; a failure leaves the
    /// store as it was.
    pub fn remove(&mut self, device: Device) -> (outcome: Result<(), MenuError>)
        ensures
            (final(self)@, outcome) == removed(old(self)@, device),
            old(self).well_formed() ==> final(self).well_formed(),
    {
        proof {
            if let Some(records) = self@ {
                if distinct(records) {
                    lemma_remove_keeps_distinct(records, device);
                }
            }
        }
        match self.records.take() {
            None => Err(MenuError::FileNotFound),
            Some(mut records) => {
                let outcome = match find(&records, device) {
                    Some(i) => {
                        proof {
                            lemma_position_unique(records@, device, i as int);
                        }
                        records.remove(i);
                        Ok(())
                    },
                    None => Err(MenuError::LibraNotFound),
                };
                self.records = Some(records);
                outcome
            },
        }
    }

    /// Brings the file into being with `records` as its content; earlier
    /// content, if there was any, is replaced.
    pub fn create_new(&mut self, records: Vec<Libra>)
        ensures
            final(self)@ == Some(records@),
            final(self).well_formed() <==> distinct(records@),
    {
        self.records = Some(records);
    }
}

/// Creates or updates the entry of `libra`: tries to add it, and where that
/// fails follows [`fallback_for`]. Afterwards the store exists and holds
/// `libra` at its device's place; the outcome names the change that was
/// made, so that the same change can be made to the file.
pub fn add_or_create_config(libra: Libra, store: &mut ConfigStore) -> (outcome: Result<
    Applied,
    AppError,
>)
    ensures
        outcome == Ok::<Applied, AppError>(applied_to(old(store)@, libra.device)),
        final(store)@ == Some(reconciled(old(store)@, libra)),
        old(store).well_formed() ==> final(store).well_formed(),
{
    proof {
        if store.well_formed() {
            lemma_reconcile_keeps_distinct(store@, libra);
        }
    }
    match store.add(libra) {
        Ok(()) => Ok(Applied::Added),
        Err(error) => match fallback_for(&error) {
            Fallback::CreateNew => {
                let mut records: Vec<Libra> = Vec::new();
                records.push(libra);
                store.create_new(records);
                Ok(Applied::Created)
            },
            Fallback::Edit => match store.edit(libra) {
                Ok(()) => Ok(Applied::Edited),
                Err(failure) => Err(AppError::from(failure)),
            },
            Fallback::Propagate => Err(AppError::from(error)),
        },
    }
}

/// Creating or updating an entry never fails to store it. Without a file
/// the store becomes the record alone. With the device stored at place `i`
/// the record takes that place and every other entry stays where it is.
/// With the device not stored the record is appended behind the entries,
/// which stay as they are.
pub proof fn lemma_reconcile_total(content: Option<Seq<Libra>>, record: Libra)
    ensures
        content is None ==> reconciled(content, record) == seq![record],
        content matches Some(records) ==> {
            let result = reconciled(content, record);
            &&& holds(records, record.device) ==> {
                let i = position(records, record.device);
                &&& is_position(records, record.device, i)
                &&& result.len() == records.len()
                &&& result[i] == record
                &&& forall|j: int| 0 <= j < records.len() && j != i ==> result[j] == records[j]
            }
            &&& !holds(records, record.device) ==> {
                &&& result.len() == records.len() + 1
                &&& result.last() == record
                &&& forall|j: int| 0 <= j < records.len() ==> result[j] == records[j]
            }
        },
{
    if let Some(records) = content {
        if holds(records, record.device) {
            lemma_held_has_position(records, record.device);
        }
    }
}

/// Creating or updating an entry keeps the list free of duplicates, and
/// afterwards the list holds the record's device.
pub proof fn lemma_reconcile_keeps_distinct(content: Option<Seq<Libra>>, record: Libra)
    requires
        content matches Some(records) ==> distinct(records),
    ensures
        distinct(reconciled(content, record)),
        holds(reconciled(content, record), record.device),
{
    let result = reconciled(content, record);
    match content {
        None => {
            assert(result[0].device == record.device);
        },
        Some(records) => {
            if holds(records, record.device) {
                lemma_held_has_position(records, record.device);
                let p = position(records, record.device);
                assert(result[p].device == record.device);
                assert forall|i: int, j: int| 0 <= i < j < result.len() implies (
                #[trigger] result[i]).device != (#[trigger] result[j]).device by {
                    assert(result[i].device == records[i].device);
                    assert(result[j].device == records[j].device);
                }
            } else {
                assert(result[records.len() as int].device == record.device);
                assert forall|i: int, j: int| 0 <= i < j < result.len() implies (
                #[trigger] result[i]).device != (#[trigger] result[j]).device by {
                    assert(result[i] == records[i]);
                    if j < records.len() {
                        assert(result[j] == records[j]);
                    }
                }
            }
        },
    }
}

/// Adding and editing keep a list free of duplicates.
pub proof fn lemma_add_edit_keep_distinct(records: Seq<Libra>, record: Libra)
    requires
        distinct(records),
    ensures
        added(Some(records), record).0 matches Some(after) && distinct(after),
        edited(Some(records), record).0 matches Some(after) && distinct(after),
{
    lemma_reconcile_keeps_distinct(Some(records), record);
}

/// Removing keeps a list free of duplicates, and afterwards the list holds
/// the device no more.
pub proof fn lemma_remove_keeps_distinct(records: Seq<Libra>, device: Device)
    requires
        distinct(records),
    ensures
        removed(Some(records), device).0 matches Some(after) && distinct(after) && !holds(
            after,
            device,
        ),
{
    if holds(records, device) {
        lemma_held_has_position(records, device);
        let p = position(records, device);
        let after = records.remove(p);
        assert forall|i: int, j: int| 0 <= i < j < after.len() implies (#[trigger] after[i]).device
            != (#[trigger] after[j]).device by {
            let from_i = if i < p { i } else { i + 1 };
            let from_j = if j < p { j } else { j + 1 };
            assert(after[i] == records[from_i]);
            assert(after[j] == records[from_j]);
        }
        assert forall|i: int| 0 <= i < after.len() implies (#[trigger] after[i]).device
            != device by {
            let from_i = if i < p { i } else { i + 1 };
            assert(after[i] == records[from_i]);
            assert(records[p].device == device);
        }
    }
}

} // verus!
