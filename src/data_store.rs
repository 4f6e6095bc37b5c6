//! The data store: what the input stack keeps across reboots, here the keyboard type learned
//! for each device. The document is read from its medium at the first access, kept in memory,
//! and written back whole after every change.

use crate::input::KeyboardType;
use vstd::prelude::*;

verus! {

/// The keyboard type stored for one device.
pub struct KeyboardClassification {
    /// The device's descriptor, stable across connections.
    pub descriptor: String,
    pub keyboard_type: KeyboardType,
    pub is_finalized: bool,
}

/// A stored keyboard type, as a value.
pub struct ClassificationRecord {
    pub descriptor: Seq<char>,
    pub keyboard_type: KeyboardType,
    pub is_finalized: bool,
}

impl View for KeyboardClassification {
    type V = ClassificationRecord;

    open spec fn view(&self) -> ClassificationRecord {
        ClassificationRecord {
            descriptor: self.descriptor@,
            keyboard_type: self.keyboard_type,
            is_finalized: self.is_finalized,
        }
    }
}

impl KeyboardClassification {
    /// A copy of the record.
    pub fn copy(&self) -> (r: KeyboardClassification)
        ensures
            r@ == self@,
    {
        KeyboardClassification {
            descriptor: self.descriptor.clone(),
            keyboard_type: self.keyboard_type,
            is_finalized: self.is_finalized,
        }
    }
}

/// The medium that holds the data store's document. The document is read and written whole;
/// a medium that holds no document, or one that cannot be read, reads as no records.
pub trait FileReaderWriter {
    /// The stored records.
    fn read(&self) -> Vec<KeyboardClassification>;

    /// Replaces the stored document with one that holds these records.
    fn write(&self, records: &Vec<KeyboardClassification>);
}

/// The stored keyboard type and finalization of the first record of `descriptor`.
pub open spec fn lookup(records: Seq<ClassificationRecord>, descriptor: Seq<char>) -> Option<
    (KeyboardType, bool),
>
    decreases records.len(),
{
    if records.len() == 0 {
        None
    } else if records[0].descriptor == descriptor {
        Some((records[0].keyboard_type, records[0].is_finalized))
    } else {
        lookup(records.drop_first(), descriptor)
    }
}

/// The records with the record of `descriptor` replaced: the others keep their order and the
/// new one comes last.
pub open spec fn with_record(
    records: Seq<ClassificationRecord>,
    descriptor: Seq<char>,
    keyboard_type: KeyboardType,
    is_finalized: bool,
) -> Seq<ClassificationRecord> {
    records.filter(|r: ClassificationRecord| r.descriptor != descriptor).push(
        ClassificationRecord { descriptor, keyboard_type, is_finalized },
    )
}

/// Persistent storage of input data.
pub struct DataStore {
    file_reader_writer: Box<dyn FileReaderWriter>,
    is_loaded: bool,
    keyboard_classifications: Vec<KeyboardClassification>,
}

impl DataStore {
    /// Whether the document was read from the medium.
    pub closed spec fn loaded(&self) -> bool {
        self.is_loaded
    }

    /// The records in memory.
    pub closed spec fn records(&self) -> Seq<ClassificationRecord> {
        self.keyboard_classifications@.map_values(|c: KeyboardClassification| c@)
    }

    /// A data store on the given medium; nothing is read before the first access.
    pub fn new(file_reader_writer: Box<dyn FileReaderWriter>) -> (r: DataStore)
        ensures
            !r.loaded(),
            r.records().len() == 0,
    {
        DataStore { file_reader_writer, is_loaded: false, keyboard_classifications: Vec::new() }
    }

    /// Reads the document at the first access.
    fn load(&mut self)
        ensures
            final(self).loaded(),
            old(self).loaded() ==> final(self).records() == old(self).records(),
    {
        if self.is_loaded {
            return ;
        }
        self.keyboard_classifications = self.file_reader_writer.read();
        self.is_loaded = true;
    }

    /// Writes the whole document.
    fn save(&self) {
        self.file_reader_writer.write(&self.keyboard_classifications);
    }

    /// The keyboard type and finalization stored for a device, if any.
    pub fn get_keyboard_type(&mut self, descriptor: &String) -> (r: Option<(KeyboardType, bool)>)
        ensures
            final(self).loaded(),
            old(self).loaded() ==> final(self).records() == old(self).records(),
            r == lookup(final(self).records(), descriptor@),
    {
        self.load();
        let ghost records = self.records();
        assert(records.subrange(0, records.len() as int) =~= records);
        let mut i: usize = 0;
        while i < self.keyboard_classifications.len()
            invariant
                i <= self.keyboard_classifications@.len(),
                records == self.records(),
                self.is_loaded,
                old(self).loaded() ==> records == old(self).records(),
                lookup(records, descriptor@) == lookup(records.subrange(i as int, records.len() as int), descriptor@),
            decreases self.keyboard_classifications@.len() - i,
        {
            let classification = &self.keyboard_classifications[i];
            assert(records.subrange(i as int, records.len() as int).drop_first() =~= records.subrange(i + 1, records.len() as int));
            if classification.descriptor == *descriptor {
                return Some((classification.keyboard_type, classification.is_finalized));
            }
            i = i + 1;
        }
        None
    }

    /// Stores the keyboard type and finalization of a device, in place of what was stored for
    /// it, and writes the document.
    pub fn set_keyboard_type(
        &mut self,
        descriptor: &String,
        keyboard_type: KeyboardType,
        is_finalized: bool,
    )
        ensures
            final(self).loaded(),
            old(self).loaded() ==> final(self).records() == with_record(
                old(self).records(),
                descriptor@,
                keyboard_type,
                is_finalized,
            ),
            !old(self).loaded() ==> exists|read: Seq<ClassificationRecord>|
                final(self).records() == with_record(read, descriptor@, keyboard_type, is_finalized),
    {
        self.load();
        let ghost records = self.records();
        let ghost keep = |r: ClassificationRecord| r.descriptor != descriptor@;
        let mut kept: Vec<KeyboardClassification> = Vec::new();
        let mut i: usize = 0;
        proof {
            reveal(Seq::filter);
        }
        assert(kept@.map_values(|c: KeyboardClassification| c@) =~= records.subrange(0, 0).filter(keep));
        while i < self.keyboard_classifications.len()
            invariant
                i <= self.keyboard_classifications@.len(),
                self.is_loaded,
                old(self).loaded() ==> records == old(self).records(),
                records == self.records(),
                keep == (|r: ClassificationRecord| r.descriptor != descriptor@),
                kept@.map_values(|c: KeyboardClassification| c@) == records.subrange(
                    0,
                    i as int,
                ).filter(keep),
            decreases self.keyboard_classifications@.len() - i,
        {
            let classification = &self.keyboard_classifications[i];
            let ghost before = records.subrange(0, i as int);
            let ghost after = records.subrange(0, i + 1);
            assert(after.drop_last() =~= before);
            proof {
                reveal(Seq::filter);
            }
            if classification.descriptor != *descriptor {
                let ghost old_kept = kept@;
                kept.push(classification.copy());
                assert(kept@.map_values(|c: KeyboardClassification| c@) =~= old_kept.map_values(
                    |c: KeyboardClassification| c@,
                ).push(classification@));
            }
            i = i + 1;
        }
        assert(records.subrange(0, i as int) =~= records);
        let ghost old_kept = kept@;
        kept.push(
            KeyboardClassification { descriptor: descriptor.clone(), keyboard_type, is_finalized },
        );
        assert(kept@.map_values(|c: KeyboardClassification| c@) =~= old_kept.map_values(
            |c: KeyboardClassification| c@,
        ).push(ClassificationRecord { descriptor: descriptor@, keyboard_type, is_finalized }));
        self.keyboard_classifications = kept;
        assert(self.records() =~= with_record(records, descriptor@, keyboard_type, is_finalized));
        self.save();
    }
}

/// What is stored for a device is what is read back for it: after storing a keyboard type
/// and finalization for a descriptor, the lookup of that descriptor gives them.
pub proof fn lemma_stored_classification_reads_back(
    records: Seq<ClassificationRecord>,
    descriptor: Seq<char>,
    keyboard_type: KeyboardType,
    is_finalized: bool,
)
    ensures
        lookup(with_record(records, descriptor, keyboard_type, is_finalized), descriptor) == Some(
            (keyboard_type, is_finalized),
        ),
{
    let keep = |r: ClassificationRecord| r.descriptor != descriptor;
    let kept = records.filter(keep);
    lemma_lookup_absent(kept, descriptor);
    lemma_lookup_append(kept, ClassificationRecord { descriptor, keyboard_type, is_finalized });
}

/// Storing a record for one descriptor leaves what is read back for the others.
pub proof fn lemma_other_classifications_unchanged(
    records: Seq<ClassificationRecord>,
    descriptor: Seq<char>,
    keyboard_type: KeyboardType,
    is_finalized: bool,
    other: Seq<char>,
)
    requires
        other != descriptor,
    ensures
        lookup(with_record(records, descriptor, keyboard_type, is_finalized), other) == lookup(
            records,
            other,
        ),
    decreases records.len(),
{
    let keep = |r: ClassificationRecord| r.descriptor != descriptor;
    let new_record = ClassificationRecord { descriptor, keyboard_type, is_finalized };
    lemma_lookup_skips_filtered(records, descriptor, other);
    let kept = records.filter(keep);
    if lookup(kept, other) is None {
        lemma_lookup_none_then_last(kept, new_record, other);
    } else {
        lemma_lookup_some_prefix(kept, new_record, other);
    }
}

/// Dropping the records of `descriptor` does not change the lookup of another descriptor.
proof fn lemma_lookup_skips_filtered(
    records: Seq<ClassificationRecord>,
    descriptor: Seq<char>,
    other: Seq<char>,
)
    requires
        other != descriptor,
    ensures
        lookup(records.filter(|r: ClassificationRecord| r.descriptor != descriptor), other)
            == lookup(records, other),
    decreases records.len(),
{
    let keep = |r: ClassificationRecord| r.descriptor != descriptor;
    if records.len() > 0 {
        let rest = records.drop_first();
        lemma_lookup_skips_filtered(rest, descriptor, other);
        assert(records =~= seq![records[0]] + rest);
        Seq::filter_distributes_over_add(seq![records[0]], rest, keep);
        reveal_with_fuel(Seq::filter, 2);
        assert(seq![records[0]].drop_last() =~= Seq::<ClassificationRecord>::empty());
        if keep(records[0]) {
            assert(records.filter(keep) =~= seq![records[0]] + rest.filter(keep));
            assert((seq![records[0]] + rest.filter(keep)).drop_first() =~= rest.filter(keep));
        } else {
            assert(records.filter(keep) =~= rest.filter(keep));
        }
    } else {
        reveal(Seq::filter);
    }
}

/// A lookup finds nothing of a descriptor that no record has.
proof fn lemma_lookup_absent(records: Seq<ClassificationRecord>, descriptor: Seq<char>)
    requires
        forall|i: int| 0 <= i < records.len() ==> records[i].descriptor != descriptor,
    ensures
        lookup(records, descriptor) is None,
    decreases records.len(),
{
    if records.len() > 0 {
        lemma_lookup_absent(records.drop_first(), descriptor);
    }
}

/// Lookup of the descriptor of a record pushed after records that do not have it.
proof fn lemma_lookup_append(records: Seq<ClassificationRecord>, record: ClassificationRecord)
    requires
        lookup(records, record.descriptor) is None,
    ensures
        lookup(records.push(record), record.descriptor) == Some(
            (record.keyboard_type, record.is_finalized),
        ),
    decreases records.len(),
{
    if records.len() > 0 {
        assert(records.push(record).drop_first() =~= records.drop_first().push(record));
        lemma_lookup_append(records.drop_first(), record);
    }
}

/// A lookup that fails in the records fails or finds the pushed record.
proof fn lemma_lookup_none_then_last(
    records: Seq<ClassificationRecord>,
    record: ClassificationRecord,
    descriptor: Seq<char>,
)
    requires
        lookup(records, descriptor) is None,
        record.descriptor != descriptor,
    ensures
        lookup(records.push(record), descriptor) is None,
    decreases records.len(),
{
    if records.len() > 0 {
        assert(records.push(record).drop_first() =~= records.drop_first().push(record));
        lemma_lookup_none_then_last(records.drop_first(), record, descriptor);
    } else {
        assert(records.push(record).drop_first() =~= Seq::<ClassificationRecord>::empty());
        assert(lookup(Seq::<ClassificationRecord>::empty(), descriptor) is None);
    }
}

/// A lookup that succeeds in the records gives the same after a push.
proof fn lemma_lookup_some_prefix(
    records: Seq<ClassificationRecord>,
    record: ClassificationRecord,
    descriptor: Seq<char>,
)
    requires
        lookup(records, descriptor) is Some,
    ensures
        lookup(records.push(record), descriptor) == lookup(records, descriptor),
    decreases records.len(),
{
    if records.len() > 0 && records[0].descriptor != descriptor {
        assert(records.push(record).drop_first() =~= records.drop_first().push(record));
        lemma_lookup_some_prefix(records.drop_first(), record, descriptor);
    }
}

} // verus!
