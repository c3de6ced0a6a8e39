//! Encrypted records of a vault and the changes that are made to them.

use vstd::prelude::*;

use crate::bytes::{copy_bytes, same_array, same_bytes};
use crate::errors::StorageError;

verus! {

/// Name of one encrypted record.
#[derive(Clone, Copy)]
pub struct RecordId {
    bytes: [u8; 16],
}

impl View for RecordId {
    type V = [u8; 16];

    closed spec fn view(&self) -> [u8; 16] {
        self.bytes
    }
}

/// Whether a record name stands before another: byte by byte, the first
/// difference decides.
pub open spec fn id_before(left: [u8; 16], right: [u8; 16]) -> bool {
    exists|k: int| #[trigger] first_difference(left, right, k) && left[k] < right[k]
}

/// Whether two record names first differ at a place.
pub open spec fn first_difference(left: [u8; 16], right: [u8; 16], place: int) -> bool {
    &&& 0 <= place < 16
    &&& left[place] != right[place]
    &&& forall|j: int| 0 <= j < place ==> left[j] == right[j]
}

/// Different names are ordered one way, and a name is not before itself.
pub proof fn id_order_is_total(left: [u8; 16], right: [u8; 16])
    ensures
        id_before(left, right) || id_before(right, left) || left == right,
        !(id_before(left, right) && id_before(right, left)),
        !(left == right && id_before(left, right)),
{
    if id_before(left, right) && id_before(right, left) {
        let k = choose|k: int| #[trigger] first_difference(left, right, k) && left[k] < right[k];
        let m = choose|k: int| #[trigger] first_difference(right, left, k) && right[k] < left[k];
        if k < m {
            assert(right[k] == left[k]);
        } else if m < k {
            assert(left[m] == right[m]);
        }
    }
    if !id_before(left, right) && !id_before(right, left) {
        assert forall|n: nat| n <= 16 implies #[trigger] agree_up_to(left, right, n) by {
            agreement_grows(left, right, n);
        }
        assert(agree_up_to(left, right, 16));
        assert(left =~= right);
    }
}

spec fn agree_up_to(left: [u8; 16], right: [u8; 16], count: nat) -> bool {
    forall|j: int| 0 <= j < count && j < 16 ==> left[j] == right[j]
}

proof fn agreement_grows(left: [u8; 16], right: [u8; 16], count: nat)
    requires
        count <= 16,
        !id_before(left, right),
        !id_before(right, left),
    ensures
        agree_up_to(left, right, count),
    decreases count,
{
    if count > 0 {
        agreement_grows(left, right, (count - 1) as nat);
        let k = count - 1;
        if left[k] != right[k] {
            assert(first_difference(left, right, k));
            assert(first_difference(right, left, k));
        }
    }
}

/// The order of record names is transitive.
pub proof fn id_order_is_transitive(low: [u8; 16], middle: [u8; 16], high: [u8; 16])
    requires
        id_before(low, middle),
        id_before(middle, high),
    ensures
        id_before(low, high),
{
    let k = choose|k: int| #[trigger] first_difference(low, middle, k) && low[k] < middle[k];
    let m = choose|k: int| #[trigger] first_difference(middle, high, k) && middle[k] < high[k];
    if k < m {
        assert(middle[k] == high[k]);
        assert(first_difference(low, high, k));
    } else if m < k {
        assert(low[m] == middle[m]);
        assert(first_difference(low, high, m));
    } else {
        assert(first_difference(low, high, k));
    }
}

/// The number that bytes write, the first one being the highest.
pub open spec fn number(bytes: Seq<u8>) -> int
    decreases bytes.len(),
{
    if bytes.len() == 0 {
        0
    } else {
        number(bytes.drop_last()) * 256 + bytes.last()
    }
}

proof fn numbers_follow_the_first_difference(left: Seq<u8>, right: Seq<u8>, place: int)
    requires
        left.len() == right.len(),
        0 <= place < left.len(),
        forall|j: int| 0 <= j < place ==> left[j] == right[j],
        left[place] < right[place],
    ensures
        number(left) < number(right),
    decreases left.len(),
{
    let shorter = left.drop_last();
    let other = right.drop_last();
    if place == left.len() - 1 {
        assert(shorter =~= other);
    } else {
        numbers_follow_the_first_difference(shorter, other, place);
    }
}

/// Names stand in the order of the numbers that their bytes write from the first
/// byte to the last, which is the order in which a database sorts them.
pub proof fn names_are_ordered_as_their_numbers(left: [u8; 16], right: [u8; 16])
    ensures
        id_before(left, right) <==> number(left@) < number(right@),
{
    if id_before(left, right) {
        let k = choose|k: int| #[trigger] first_difference(left, right, k) && left[k] < right[k];
        numbers_follow_the_first_difference(left@, right@, k);
    } else if id_before(right, left) {
        let k = choose|k: int| #[trigger] first_difference(right, left, k) && right[k] < left[k];
        numbers_follow_the_first_difference(right@, left@, k);
    } else {
        id_order_is_total(left, right);
    }
}

/// A name stands before another wherever it has the lower byte at some place and
/// the same bytes at every earlier one, whatever follows. So a name whose first
/// byte is lower stands before every name whose first byte is higher.
pub proof fn the_first_difference_decides(left: RecordId, right: RecordId, place: int, before: bool)
    requires
        call_ensures(RecordId::before, (&left, &right), before),
        0 <= place < 16,
        left@@.take(place) == right@@.take(place),
        left@@[place] < right@@[place],
    ensures
        before,
{
    assert forall|j: int| 0 <= j < place implies left@@[j] == right@@[j] by {
        assert(left@@.take(place)[j] == left@@[j]);
        assert(right@@.take(place)[j] == right@@[j]);
    }
    numbers_follow_the_first_difference(left@@, right@@, place);
    names_are_ordered_as_their_numbers(left@, right@);
}

impl RecordId {
    pub fn from_bytes(bytes: [u8; 16]) -> (id: RecordId)
        ensures
            id@ == bytes,
    {
        RecordId { bytes }
    }

    pub fn as_bytes(&self) -> (bytes: [u8; 16])
        ensures
            bytes == self@,
    {
        self.bytes
    }

    pub fn same(&self, other: &RecordId) -> (same: bool)
        ensures
            same == (self@ == other@),
    {
        same_array(&self.bytes, &other.bytes)
    }

    /// Whether this name stands before another.
    pub fn before(&self, other: &RecordId) -> (before: bool)
        ensures
            before == id_before(self@, other@),
    {
        let mut index: usize = 0;
        while index < 16
            invariant
                index <= 16,
                forall|j: int| 0 <= j < index ==> self@[j] == other@[j],
            decreases 16 - index,
        {
            if self.bytes[index] != other.bytes[index] {
                assert(first_difference(self@, other@, index as int));
                assert(first_difference(other@, self@, index as int));
                proof {
                    id_order_is_total(self@, other@);
                }
                return self.bytes[index] < other.bytes[index];
            }
            index += 1;
        }
        assert(self@ =~= other@);
        proof {
            id_order_is_total(self@, other@);
        }
        false
    }
}

/// One encrypted record as it is stored.
pub struct EncryptedRecord {
    pub id: RecordId,
    pub envelope: Vec<u8>,
}

/// What a stored record says.
pub struct RecordModel {
    pub id: [u8; 16],
    pub envelope: Seq<u8>,
}

impl View for EncryptedRecord {
    type V = RecordModel;

    open spec fn view(&self) -> RecordModel {
        RecordModel { id: self.id@, envelope: self.envelope@ }
    }
}

/// What a list of stored records says.
pub open spec fn records_model(records: Seq<EncryptedRecord>) -> Seq<RecordModel> {
    Seq::new(records.len(), |i: int| records[i]@)
}

impl EncryptedRecord {
    pub fn new(id: RecordId, envelope: Vec<u8>) -> (record: EncryptedRecord)
        ensures
            record@ == (RecordModel { id: id@, envelope: envelope@ }),
    {
        EncryptedRecord { id, envelope }
    }

    pub fn copy(&self) -> (copy: EncryptedRecord)
        ensures
            copy@ == self@,
    {
        EncryptedRecord { id: self.id, envelope: copy_bytes(&self.envelope) }
    }
}

/// Whether two lists of records say the same.
pub fn same_records(left: &Vec<EncryptedRecord>, right: &Vec<EncryptedRecord>) -> (same: bool)
    ensures
        same == (records_model(left@) == records_model(right@)),
{
    if left.len() != right.len() {
        assert(records_model(left@).len() != records_model(right@).len());
        return false;
    }
    let mut index: usize = 0;
    while index < left.len()
        invariant
            index <= left.len(),
            left.len() == right.len(),
            forall|i: int| 0 <= i < index ==> (#[trigger] left[i])@ == right[i]@,
        decreases left.len() - index,
    {
        if !left[index].id.same(&right[index].id) || !same_bytes(
            &left[index].envelope,
            &right[index].envelope,
        ) {
            assert(records_model(left@)[index as int] == left[index as int]@);
            assert(records_model(right@)[index as int] == right[index as int]@);
            return false;
        }
        index += 1;
    }
    assert(records_model(left@) =~= records_model(right@));
    true
}

/// The rows of a vault database.
pub struct VaultData {
    pub header: Vec<u8>,
    pub manifest: Vec<u8>,
    pub records: Vec<EncryptedRecord>,
}

/// What the rows of a vault database say.
pub struct VaultModel {
    pub header: Seq<u8>,
    pub manifest: Seq<u8>,
    pub records: Seq<RecordModel>,
}

impl View for VaultData {
    type V = VaultModel;

    open spec fn view(&self) -> VaultModel {
        VaultModel {
            header: self.header@,
            manifest: self.manifest@,
            records: records_model(self.records@),
        }
    }
}

impl VaultData {
    /// Whether two reads of a database gave the same rows.
    pub fn same(&self, other: &VaultData) -> (same: bool)
        ensures
            same == (self@ == other@),
    {
        same_bytes(&self.header, &other.header) && same_bytes(&self.manifest, &other.manifest)
            && same_records(&self.records, &other.records)
    }
}

/// What is done to one record.
#[derive(Clone, Copy, Debug, PartialEq, Eq, Structural)]
pub enum RecordMutationKind {
    Insert,
    Update,
    Delete,
}

/// One change to the records, with the manifest that commits to its result.
pub struct PreparedRecordMutation {
    pub kind: RecordMutationKind,
    pub id: RecordId,
    pub envelope: Option<Vec<u8>>,
    pub manifest_envelope: Vec<u8>,
}

/// Whether a record of this name stands in a list.
pub open spec fn names(records: Seq<RecordModel>, id: [u8; 16]) -> bool {
    exists|i: int| 0 <= i < records.len() && #[trigger] records[i].id == id
}

/// The first place at which a record of this name stands.
pub open spec fn first_named(records: Seq<RecordModel>, id: [u8; 16]) -> int {
    choose|i: int| is_first_named(records, id, i)
}

/// Whether a record of this name first stands at a place.
pub open spec fn is_first_named(records: Seq<RecordModel>, id: [u8; 16], place: int) -> bool {
    &&& 0 <= place < records.len()
    &&& records[place].id == id
    &&& forall|j: int| 0 <= j < place ==> #[trigger] records[j].id != id
}

/// The records of one name, in the order in which they stand.
pub open spec fn named(records: Seq<RecordModel>, id: [u8; 16]) -> Seq<RecordModel> {
    records.filter(|record: RecordModel| record.id == id)
}

/// The records of every other name, in the order in which they stand.
pub open spec fn unnamed(records: Seq<RecordModel>, id: [u8; 16]) -> Seq<RecordModel> {
    records.filter(|record: RecordModel| record.id != id)
}

/// The records after a change, before they are put in order.
pub open spec fn changed_records(
    records: Seq<RecordModel>,
    kind: RecordMutationKind,
    id: [u8; 16],
    envelope: Option<Seq<u8>>,
) -> Result<Seq<RecordModel>, StorageError> {
    match kind {
        RecordMutationKind::Insert => match envelope {
            None => Err(StorageError::Schema),
            Some(envelope) => Ok(records.push(RecordModel { id, envelope })),
        },
        RecordMutationKind::Update => if !names(records, id) {
            Err(StorageError::Conflict)
        } else {
            match envelope {
                None => Err(StorageError::Schema),
                Some(envelope) => Ok(
                    records.update(first_named(records, id), RecordModel { id, envelope }),
                ),
            }
        },
        RecordMutationKind::Delete => if !names(records, id) {
            Err(StorageError::Conflict)
        } else {
            Ok(unnamed(records, id))
        },
    }
}

/// Whether records stand in the order of their names.
pub open spec fn in_order(records: Seq<RecordModel>) -> bool {
    forall|i: int, j: int|
        0 <= i < j < records.len() ==> !id_before((#[trigger] records[j]).id, (
        #[trigger] records[i]).id)
}

/// Whether `ordered` holds the records of `records` in the order of their
/// names, records of one name staying in the order in which they stood.
pub open spec fn is_ordering_of(ordered: Seq<RecordModel>, records: Seq<RecordModel>) -> bool {
    &&& in_order(ordered)
    &&& forall|id: [u8; 16]| #[trigger] named(ordered, id) == named(records, id)
}

/// The rows that a change must leave behind.
pub fn apply_to_expected_records(
    records: &Vec<EncryptedRecord>,
    mutation: &PreparedRecordMutation,
) -> (expected: Result<Vec<EncryptedRecord>, StorageError>)
    ensures
        match changed_records(
            records_model(records@),
            mutation.kind,
            mutation.id@,
            crate::bytes::bytes_view(mutation.envelope),
        ) {
            Err(error) => expected == Err::<Vec<EncryptedRecord>, StorageError>(error),
            Ok(changed) => {
                &&& expected is Ok
                &&& is_ordering_of(records_model(expected->Ok_0@), changed)
            },
        },
{
    match mutation.kind {
        RecordMutationKind::Insert => match &mutation.envelope {
            None => Err(StorageError::Schema),
            Some(envelope) => {
                let mut changed = copy_records(records);
                changed.push(EncryptedRecord::new(mutation.id, copy_bytes(envelope)));
                assert(records_model(changed@) =~= records_model(records@).push(
                    RecordModel { id: mutation.id@, envelope: envelope@ },
                ));
                Ok(ordered_records(&changed))
            },
        },
        RecordMutationKind::Update => match find_record(records, &mutation.id) {
            None => Err(StorageError::Conflict),
            Some(place) => match &mutation.envelope {
                None => Err(StorageError::Schema),
                Some(envelope) => {
                    let mut changed = copy_records(records);
                    let ghost before = records_model(records@);
                    changed.set(place, EncryptedRecord::new(mutation.id, copy_bytes(envelope)));
                    proof {
                        let first = first_named(before, mutation.id@);
                        assert(is_first_named(before, mutation.id@, place as int));
                        assert(first == place as int) by {
                            assert(is_first_named(before, mutation.id@, first));
                            if first < place {
                                assert(before[first].id != mutation.id@);
                            } else if place < first {
                                assert(before[place as int].id != mutation.id@);
                            }
                        }
                        assert(records_model(changed@) =~= before.update(
                            first,
                            RecordModel { id: mutation.id@, envelope: envelope@ },
                        ));
                    }
                    Ok(ordered_records(&changed))
                },
            },
        },
        RecordMutationKind::Delete => match find_record(records, &mutation.id) {
            None => Err(StorageError::Conflict),
            Some(place) => {
                let changed = records_without(records, &mutation.id);
                Ok(ordered_records(&changed))
            },
        },
    }
}

fn copy_records(records: &Vec<EncryptedRecord>) -> (copy: Vec<EncryptedRecord>)
    ensures
        records_model(copy@) == records_model(records@),
        copy.len() == records.len(),
{
    let mut copy: Vec<EncryptedRecord> = Vec::new();
    let mut index: usize = 0;
    while index < records.len()
        invariant
            index <= records.len(),
            copy.len() == index,
            forall|i: int| 0 <= i < index ==> (#[trigger] copy[i])@ == records[i]@,
        decreases records.len() - index,
    {
        copy.push(records[index].copy());
        index += 1;
    }
    assert(records_model(copy@) =~= records_model(records@));
    copy
}

fn find_record(records: &Vec<EncryptedRecord>, id: &RecordId) -> (place: Option<usize>)
    ensures
        place is Some <==> names(records_model(records@), id@),
        place matches Some(index) ==> is_first_named(
            records_model(records@),
            id@,
            index as int,
        ),
{
    let ghost model = records_model(records@);
    let mut index: usize = 0;
    while index < records.len()
        invariant
            index <= records.len(),
            model == records_model(records@),
            forall|i: int| 0 <= i < index ==> (#[trigger] model[i]).id != id@,
        decreases records.len() - index,
    {
        if records[index].id.same(id) {
            assert(model[index as int].id == id@);
            return Some(index);
        }
        index += 1;
    }
    None
}

fn records_without(records: &Vec<EncryptedRecord>, id: &RecordId) -> (rest: Vec<EncryptedRecord>)
    ensures
        records_model(rest@) == unnamed(records_model(records@), id@),
{
    let ghost model = records_model(records@);
    let ghost other = |record: RecordModel| record.id != id@;
    let mut rest: Vec<EncryptedRecord> = Vec::new();
    let mut index: usize = 0;
    proof {
        reveal(Seq::filter);
        assert(records_model(rest@) =~= model.take(0).filter(other));
    }
    while index < records.len()
        invariant
            index <= records.len(),
            model == records_model(records@),
            other == (|record: RecordModel| record.id != id@),
            records_model(rest@) == model.take(index as int).filter(other),
        decreases records.len() - index,
    {
        let ghost kept = rest@;
        if !records[index].id.same(id) {
            rest.push(records[index].copy());
            assert(records_model(rest@) =~= records_model(kept).push(model[index as int]));
        }
        index += 1;
        proof {
            reveal(Seq::filter);
            assert(model.take(index as int).drop_last() =~= model.take(index - 1));
        }
    }
    assert(model.take(index as int) =~= model);
    rest
}

/// The records in the order of their names.
fn ordered_records(records: &Vec<EncryptedRecord>) -> (ordered: Vec<EncryptedRecord>)
    ensures
        is_ordering_of(records_model(ordered@), records_model(records@)),
{
    let ghost model = records_model(records@);
    let mut ordered: Vec<EncryptedRecord> = Vec::new();
    let mut index: usize = 0;
    proof {
        assert(records_model(ordered@) =~= model.take(0));
    }
    while index < records.len()
        invariant
            index <= records.len(),
            model == records_model(records@),
            is_ordering_of(records_model(ordered@), model.take(index as int)),
        decreases records.len() - index,
    {
        let record = records[index].copy();
        let ghost sorted = records_model(ordered@);
        let mut place: usize = ordered.len();
        while place > 0 && record.id.before(&ordered[place - 1].id)
            invariant
                place <= ordered.len(),
                sorted == records_model(ordered@),
                in_order(sorted),
                forall|i: int|
                    place <= i < sorted.len() ==> id_before(record.id@, (#[trigger] sorted[i]).id),
            decreases place,
        {
            assert(sorted[place - 1].id == ordered[place - 1].id@);
            place -= 1;
        }
        assert(record@ == model[index as int]);
        ordered.insert(place, record);
        proof {
            assert(records_model(ordered@) =~= sorted.insert(place as int, record@));
            if place > 0 {
                assert(sorted[place - 1].id == ordered[place - 1].id@);
            }
            insertion_keeps_order(sorted, model.take(index as int), place as int, record@);
            assert(model.take(index + 1) =~= model.take(index as int).push(record@));
        }
        index += 1;
    }
    assert(model.take(index as int) =~= model);
    ordered
}

proof fn insertion_keeps_order(
    sorted: Seq<RecordModel>,
    source: Seq<RecordModel>,
    place: int,
    record: RecordModel,
)
    requires
        is_ordering_of(sorted, source),
        0 <= place <= sorted.len(),
        forall|i: int| place <= i < sorted.len() ==> id_before(record.id, (#[trigger] sorted[i]).id),
        place > 0 ==> !id_before(record.id, sorted[place - 1].id),
    ensures
        is_ordering_of(sorted.insert(place, record), source.push(record)),
{
    let grown = sorted.insert(place, record);
    assert forall|i: int, j: int| 0 <= i < j < grown.len() implies !id_before(
        (#[trigger] grown[j]).id,
        (#[trigger] grown[i]).id,
    ) by {
        if j == place {
            id_order_is_total(record.id, sorted[i].id);
            if i < place - 1 && id_before(record.id, sorted[i].id) {
                id_order_is_total(sorted[i].id, sorted[place - 1].id);
                if id_before(sorted[i].id, sorted[place - 1].id) {
                    id_order_is_transitive(record.id, sorted[i].id, sorted[place - 1].id);
                }
            }
        } else if i == place {
            id_order_is_total(record.id, sorted[j - 1].id);
        }
    }
    assert forall|id: [u8; 16]| #[trigger] named(grown, id) == named(source.push(record), id) by {
        let pred = |r: RecordModel| r.id == id;
        let low = sorted.take(place);
        let high = sorted.skip(place);
        assert(grown =~= low + seq![record] + high);
        assert(sorted =~= low + high);
        Seq::filter_distributes_over_add(low + seq![record], high, pred);
        Seq::filter_distributes_over_add(low, seq![record], pred);
        Seq::filter_distributes_over_add(low, high, pred);
        assert(source.push(record) =~= source + seq![record]);
        Seq::filter_distributes_over_add(source, seq![record], pred);
        assert(named(sorted, id) == named(source, id));
        if id == record.id {
            assert forall|i: int| 0 <= i < high.len() implies !pred(#[trigger] high[i]) by {
                assert(high[i] == sorted[place + i]);
                id_order_is_total(record.id, high[i].id);
            }
            filter_of_none(high, pred);
            assert(low.filter(pred) + seq![record].filter(pred) + high.filter(pred)
                =~= low.filter(pred) + high.filter(pred) + seq![record].filter(pred));
        } else {
            filter_of_none(seq![record], pred);
            assert(low.filter(pred) + seq![record].filter(pred) + high.filter(pred)
                =~= low.filter(pred) + high.filter(pred) + seq![record].filter(pred));
        }
    }
}

proof fn filter_of_none(records: Seq<RecordModel>, pred: spec_fn(RecordModel) -> bool)
    requires
        forall|i: int| 0 <= i < records.len() ==> !pred(#[trigger] records[i]),
    ensures
        records.filter(pred) == Seq::<RecordModel>::empty(),
    decreases records.len(),
{
    reveal(Seq::filter);
    if records.len() > 0 {
        assert(!pred(records.last()));
        assert forall|i: int| 0 <= i < records.drop_last().len() implies !pred(
            #[trigger] records.drop_last()[i],
        ) by {
            assert(records.drop_last()[i] == records[i]);
        }
        filter_of_none(records.drop_last(), pred);
    }
}

/// Records in the order of their names are settled by which records there are
/// of each name.
pub proof fn ordering_is_unique(left: Seq<RecordModel>, right: Seq<RecordModel>)
    requires
        in_order(left),
        in_order(right),
        forall|id: [u8; 16]| #[trigger] named(left, id) == named(right, id),
    ensures
        left == right,
    decreases left.len(),
{
    if left.len() == 0 {
        if right.len() > 0 {
            last_is_named(right);
            assert(named(left, right.last().id).len() == 0) by {
                left.lemma_filter_len(|record: RecordModel| record.id == right.last().id);
            }
        }
        assert(left =~= right);
    } else {
        let x = left.last();
        last_is_named(left);
        assert(named(left, x.id) == named(right, x.id));
        let place = named_place(right, x.id);
        let y = right.last();
        last_is_named(right);
        assert(named(left, y.id) == named(right, y.id));
        let other = named_place(left, y.id);
        id_order_is_total(x.id, y.id);
        if place < right.len() - 1 {
            assert(!id_before(right[right.len() - 1].id, right[place].id));
        }
        if other < left.len() - 1 {
            assert(!id_before(left[left.len() - 1].id, left[other].id));
        }
        assert(x.id == y.id);
        assert(x == y);
        let shorter = left.drop_last();
        let briefer = right.drop_last();
        assert forall|id: [u8; 16]| #[trigger] named(shorter, id) == named(briefer, id) by {
            reveal(Seq::filter);
            assert(named(left, id) == named(right, id));
            if id == x.id {
                assert(named(left, id).drop_last() =~= named(shorter, id));
                assert(named(right, id).drop_last() =~= named(briefer, id));
            }
        }
        assert forall|i: int, j: int| 0 <= i < j < shorter.len() implies !id_before(
            (#[trigger] shorter[j]).id,
            (#[trigger] shorter[i]).id,
        ) by {
            assert(shorter[i] == left[i] && shorter[j] == left[j]);
        }
        assert forall|i: int, j: int| 0 <= i < j < briefer.len() implies !id_before(
            (#[trigger] briefer[j]).id,
            (#[trigger] briefer[i]).id,
        ) by {
            assert(briefer[i] == right[i] && briefer[j] == right[j]);
        }
        ordering_is_unique(shorter, briefer);
        assert(left =~= shorter.push(x));
        assert(right =~= briefer.push(y));
    }
}

proof fn last_is_named(records: Seq<RecordModel>)
    requires
        records.len() > 0,
    ensures
        named(records, records.last().id).len() > 0,
        named(records, records.last().id).last() == records.last(),
{
    reveal(Seq::filter);
}

proof fn named_place(records: Seq<RecordModel>, id: [u8; 16]) -> (place: int)
    requires
        named(records, id).len() > 0,
    ensures
        0 <= place < records.len(),
        records[place].id == id,
    decreases records.len(),
{
    reveal(Seq::filter);
    if records.last().id == id {
        records.len() - 1
    } else {
        named_place(records.drop_last(), id)
    }
}

/// Inserting a record of a new name and deleting it again leaves the records
/// as they were.
pub proof fn deletion_undoes_insertion(
    records: Seq<RecordModel>,
    grown: Seq<RecordModel>,
    shrunk: Seq<RecordModel>,
    id: [u8; 16],
    envelope: Seq<u8>,
)
    requires
        in_order(records),
        !names(records, id),
        is_ordering_of(
            grown,
            changed_records(records, RecordMutationKind::Insert, id, Some(envelope))->Ok_0,
        ),
        is_ordering_of(
            shrunk,
            changed_records(grown, RecordMutationKind::Delete, id, None)->Ok_0,
        ),
    ensures
        changed_records(grown, RecordMutationKind::Delete, id, None) is Ok,
        shrunk == records,
{
    let record = RecordModel { id, envelope };
    let pushed = records.push(record);
    assert(named(grown, id) == named(pushed, id));
    last_is_named(pushed);
    let place = named_place(grown, id);
    assert(names(grown, id));
    let deleted = unnamed(grown, id);
    assert forall|other: [u8; 16]| #[trigger] named(shrunk, other) == named(records, other) by {
        assert(named(shrunk, other) == named(deleted, other));
        assert(named(grown, other) == named(pushed, other));
        filters_meet(grown, id, other);
        assert(pushed.drop_last() =~= records);
        reveal(Seq::filter);
        if other == id {
            assert forall|i: int| 0 <= i < records.len() implies !((|r: RecordModel| r.id == id)(
                #[trigger] records[i],
            )) by {
                assert(records[i].id != id);
            }
            filter_of_none(records, |r: RecordModel| r.id == id);
        }
    }
    ordering_is_unique(shrunk, records);
}

proof fn filters_meet(records: Seq<RecordModel>, id: [u8; 16], other: [u8; 16])
    ensures
        named(unnamed(records, id), other) == (if other == id {
            Seq::<RecordModel>::empty()
        } else {
            named(records, other)
        }),
    decreases records.len(),
{
    reveal(Seq::filter);
    if records.len() > 0 {
        filters_meet(records.drop_last(), id, other);
        let rest = unnamed(records.drop_last(), id);
        if records.last().id != id {
            assert(unnamed(records, id).drop_last() =~= rest);
        }
    }
}

/// Whether no two records of a list have one name.
pub open spec fn distinct_names(records: Seq<RecordModel>) -> bool {
    forall|i: int, j: int|
        0 <= i < records.len() && 0 <= j < records.len() && (#[trigger] records[i]).id == (
        #[trigger] records[j]).id ==> i == j
}

proof fn named_once(records: Seq<RecordModel>, place: int)
    requires
        distinct_names(records),
        0 <= place < records.len(),
    ensures
        named(records, records[place].id) == seq![records[place]],
{
    let id = records[place].id;
    let pred = |r: RecordModel| r.id == id;
    let low = records.take(place);
    let high = records.skip(place + 1);
    let here = seq![records[place]];
    assert(records =~= low + here + high);
    Seq::filter_distributes_over_add(low + here, high, pred);
    Seq::filter_distributes_over_add(low, here, pred);
    assert forall|i: int| 0 <= i < low.len() implies !pred(#[trigger] low[i]) by {
        assert(low[i] == records[i]);
    }
    assert forall|i: int| 0 <= i < high.len() implies !pred(#[trigger] high[i]) by {
        assert(high[i] == records[place + 1 + i]);
    }
    filter_of_none(low, pred);
    filter_of_none(high, pred);
    reveal(Seq::filter);
    assert(here.drop_last() =~= Seq::<RecordModel>::empty());
    assert(here.filter(pred) =~= here);
    assert(Seq::<RecordModel>::empty() + here + Seq::<RecordModel>::empty() =~= here);
}

proof fn named_elsewhere(
    records: Seq<RecordModel>,
    place: int,
    record: RecordModel,
    other: [u8; 16],
)
    requires
        0 <= place < records.len(),
        records[place].id == record.id,
        other != record.id,
    ensures
        named(records.update(place, record), other) == named(records, other),
{
    let pred = |r: RecordModel| r.id == other;
    let low = records.take(place);
    let high = records.skip(place + 1);
    let before = seq![records[place]];
    let after = seq![record];
    assert(records =~= low + before + high);
    assert(records.update(place, record) =~= low + after + high);
    Seq::filter_distributes_over_add(low + before, high, pred);
    Seq::filter_distributes_over_add(low, before, pred);
    Seq::filter_distributes_over_add(low + after, high, pred);
    Seq::filter_distributes_over_add(low, after, pred);
    filter_of_none(before, pred);
    filter_of_none(after, pred);
}

/// A change is read back as what was written: the record that was inserted or
/// updated is there once, with its new envelope, one that was deleted is gone,
/// and every other record is as it was.
pub proof fn changes_are_read_back(
    records: Seq<RecordModel>,
    after: Seq<RecordModel>,
    kind: RecordMutationKind,
    id: [u8; 16],
    envelope: Option<Seq<u8>>,
)
    requires
        distinct_names(records),
        kind is Insert ==> !names(records, id),
        changed_records(records, kind, id, envelope) is Ok,
        is_ordering_of(after, changed_records(records, kind, id, envelope)->Ok_0),
    ensures
        named(after, id) == (if kind is Delete {
            Seq::<RecordModel>::empty()
        } else {
            seq![RecordModel { id, envelope: envelope->Some_0 }]
        }),
        forall|other: [u8; 16]|
            other != id ==> #[trigger] named(after, other) == named(records, other),
{
    let changed = changed_records(records, kind, id, envelope)->Ok_0;
    assert(named(after, id) == named(changed, id));
    match kind {
        RecordMutationKind::Insert => {
            assert(distinct_names(changed)) by {
                assert forall|i: int| 0 <= i < records.len() implies (#[trigger] records[i]).id
                    != id by {
                    assert(!names(records, id));
                }
            }
            named_once(changed, records.len() as int);
        },
        RecordMutationKind::Update => {
            let first = first_named(records, id);
            first_is_named(records, id);
            named_once(changed, first);
        },
        RecordMutationKind::Delete => {
            filters_meet(records, id, id);
        },
    }
    assert forall|other: [u8; 16]| other != id implies #[trigger] named(after, other) == named(
        records,
        other,
    ) by {
        assert(named(after, other) == named(changed, other));
        match kind {
            RecordMutationKind::Insert => {
                reveal(Seq::filter);
                assert(changed.drop_last() =~= records);
            },
            RecordMutationKind::Update => {
                first_is_named(records, id);
                named_elsewhere(
                    records,
                    first_named(records, id),
                    RecordModel { id, envelope: envelope->Some_0 },
                    other,
                );
            },
            RecordMutationKind::Delete => {
                filters_meet(records, id, other);
            },
        }
    }
}

proof fn first_is_named(records: Seq<RecordModel>, id: [u8; 16])
    requires
        names(records, id),
        distinct_names(records),
    ensures
        is_first_named(records, id, first_named(records, id)),
{
    let place = choose|i: int| 0 <= i < records.len() && #[trigger] records[i].id == id;
    assert(is_first_named(records, id, place));
}

/// Whether no two records of a list have one name.
pub open spec fn names_are_distinct(records: Seq<RecordModel>) -> bool {
    forall|i: int, j: int|
        0 <= i < records.len() && 0 <= j < records.len() && (#[trigger] records[i]).id == (
        #[trigger] records[j]).id ==> i == j
}

/// What a filter lets through of a list was in it.
proof fn what_passes_was_there(
    records: Seq<RecordModel>,
    passes: spec_fn(RecordModel) -> bool,
    record: RecordModel,
)
    ensures
        records.filter(passes).contains(record) <==> records.contains(record) && passes(record),
    decreases records.len(),
{
    reveal(Seq::filter);
    if records.len() > 0 {
        let rest = records.drop_last();
        let kept = records.filter(passes);
        what_passes_was_there(rest, passes, record);
        assert(records =~= rest.push(records.last()));
        if records.contains(record) && records.last() != record {
            assert(rest[records.index_of(record)] == record);
        }
        if rest.contains(record) {
            assert(records[rest.index_of(record)] == record);
        }
        if records.last() == record {
            assert(records[records.len() - 1] == record);
        }
        if passes(records.last()) {
            assert(kept == rest.filter(passes).push(records.last()));
            assert(kept[kept.len() - 1] == records.last());
            if rest.filter(passes).contains(record) {
                assert(kept[rest.filter(passes).index_of(record)] == record);
            }
            if kept.contains(record) && records.last() != record {
                assert(rest.filter(passes)[kept.index_of(record)] == record);
            }
        }
    } else {
        assert(records.filter(passes) == records);
    }
}

/// Putting records in the order of their names neither adds nor drops one.
pub proof fn orderings_hold_the_same(
    ordered: Seq<RecordModel>,
    records: Seq<RecordModel>,
    record: RecordModel,
)
    requires
        is_ordering_of(ordered, records),
    ensures
        ordered.contains(record) <==> records.contains(record),
{
    let same_name = |other: RecordModel| other.id == record.id;
    what_passes_was_there(ordered, same_name, record);
    what_passes_was_there(records, same_name, record);
    assert(named(ordered, record.id) == named(records, record.id));
}

/// A change to records of distinct names changes the one that it names: a new
/// one stands beside all others, a replaced one says what it is replaced by, a
/// deleted one is gone. It is refused exactly where there is nothing to replace
/// or delete, or nothing to put there.
pub proof fn changes_change_one_record(
    records: Seq<RecordModel>,
    kind: RecordMutationKind,
    id: [u8; 16],
    envelope: Option<Seq<u8>>,
    record: RecordModel,
)
    requires
        names_are_distinct(records),
    ensures
        ({
            let changed = changed_records(records, kind, id, envelope);
            &&& changed is Ok <==> (kind == RecordMutationKind::Delete || envelope is Some) && (kind
                == RecordMutationKind::Insert || exists|i: int|
                0 <= i < records.len() && #[trigger] records[i].id == id)
            &&& changed is Ok && record.id != id ==> (changed->Ok_0.contains(record)
                <==> records.contains(record))
            &&& changed is Ok && record.id == id && kind != RecordMutationKind::Insert ==> (
            changed->Ok_0.contains(record) <==> kind == RecordMutationKind::Update
                && record.envelope == envelope->Some_0)
            &&& changed is Ok && record.id == id && kind == RecordMutationKind::Insert ==> (
            changed->Ok_0.contains(record) <==> records.contains(record) || record.envelope
                == envelope->Some_0)
            &&& kind == RecordMutationKind::Insert && envelope is Some ==> changed->Ok_0.len()
                == records.len() + 1
            &&& changed matches Err(error) ==> error == (if kind != RecordMutationKind::Insert
                && !names(records, id) {
                StorageError::Conflict
            } else {
                StorageError::Schema
            })
        }),
{
    let changed = changed_records(records, kind, id, envelope);
    if changed is Ok {
        let after = changed->Ok_0;
        match kind {
            RecordMutationKind::Insert => {
                let new = RecordModel { id, envelope: envelope->Some_0 };
                assert(after[records.len() as int] == new);
                if records.contains(record) {
                    assert(after[records.index_of(record)] == record);
                }
                if after.contains(record) && record != new {
                    assert(records[after.index_of(record)] == record);
                }
            },
            RecordMutationKind::Update => {
                let new = RecordModel { id, envelope: envelope->Some_0 };
                let some = choose|i: int| 0 <= i < records.len() && #[trigger] records[i].id == id;
                one_stands_first(records, id, some);
                let first = first_named(records, id);
                assert(is_first_named(records, id, first));
                assert(after[first] == new);
                if records.contains(record) && record.id != id {
                    assert(after[records.index_of(record)] == record);
                }
                if after.contains(record) && record != new {
                    let place = after.index_of(record);
                    assert(records[place] == record);
                    if record.id == id {
                        assert(records[place].id == records[first].id);
                    }
                }
            },
            RecordMutationKind::Delete => {
                what_passes_was_there(
                    records,
                    |other: RecordModel| other.id != id,
                    record,
                );
            },
        }
    }
}

/// Where a name stands somewhere, it stands somewhere first.
proof fn one_stands_first(records: Seq<RecordModel>, id: [u8; 16], place: int)
    requires
        0 <= place < records.len(),
        records[place].id == id,
    ensures
        exists|i: int| is_first_named(records, id, i),
    decreases place,
{
    if exists|j: int| 0 <= j < place && #[trigger] records[j].id == id {
        let j = choose|j: int| 0 <= j < place && #[trigger] records[j].id == id;
        one_stands_first(records, id, j);
    } else {
        assert(is_first_named(records, id, place));
    }
}

} // verus!
