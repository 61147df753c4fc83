//! Shaping host data for the engine and engine output for the host.
use vstd::prelude::*;
use crate::error::{BridgeError, ErrorKind};

verus! {

/// The symbol that fills a row up to the batch's width.
pub const PAD_SYMBOL: i64 = 0;

/// A batch the engine may be handed: at least one sequence, none empty.
pub open spec fn batch_is_valid(batch: Seq<Seq<i64>>) -> bool {
    &&& batch.len() > 0
    &&& forall|i: int| 0 <= i < batch.len() ==> #[trigger] batch[i].len() > 0
}

/// `row` followed by pad symbols up to `width`.
pub open spec fn padded_row(row: Seq<i64>, width: nat) -> Seq<i64> {
    row + Seq::new((width - row.len()) as nat, |_k: int| PAD_SYMBOL)
}

/// A batch in the engine's fixed layout: one row per sequence, each padded
/// to the common width, and the true length of each row.
#[derive(Clone, Debug)]
pub struct PaddedBatch {
    pub rows: Vec<Vec<i64>>,
    pub lengths: Vec<usize>,
    pub width: usize,
}

impl PaddedBatch {
    /// Rows and lengths agree, every row has the common width, and every
    /// recorded length is positive and within it.
    pub open spec fn wf(&self) -> bool {
        &&& self.rows@.len() > 0
        &&& self.rows@.len() == self.lengths@.len()
        &&& forall|i: int|
            0 <= i < self.rows@.len() ==> {
                &&& #[trigger] self.rows@[i]@.len() == self.width
                &&& 0 < self.lengths@[i] <= self.width
            }
    }

    /// The layout that `batch` takes: it holds exactly the rows of `batch`
    /// in their order, padded to the longest of them.
    pub open spec fn lays_out(&self, batch: Seq<Seq<i64>>) -> bool {
        &&& self.rows@.len() == batch.len()
        &&& forall|i: int| 0 <= i < batch.len() ==> #[trigger] batch[i].len() <= self.width
        &&& exists|i: int| 0 <= i < batch.len() && #[trigger] batch[i].len() == self.width
        &&& forall|i: int|
            0 <= i < batch.len() ==> {
                &&& #[trigger] self.rows@[i]@ == padded_row(batch[i], self.width as nat)
                &&& self.lengths@[i] == batch[i].len()
            }
    }

    /// The number of rows.
    pub fn row_count(&self) -> (r: usize)
        ensures
            r == self.rows@.len(),
    {
        self.rows.len()
    }
}

/// `row` padded with the pad symbol up to `width`.
fn pad_row(row: &Vec<i64>, width: usize) -> (r: Vec<i64>)
    requires
        row@.len() <= width,
    ensures
        r@ == padded_row(row@, width as nat),
{
    let mut out: Vec<i64> = Vec::new();
    let mut k: usize = 0;
    while k < row.len()
        invariant
            k <= row@.len(),
            out@ == row@.subrange(0, k as int),
        decreases row@.len() - k,
    {
        out.push(row[k]);
        k = k + 1;
    }
    while out.len() < width
        invariant
            row@.len() <= out@.len() <= width,
            out@ == padded_row(row@, (out@.len()) as nat),
        decreases width - out@.len(),
    {
        out.push(PAD_SYMBOL);
        assert(out@ =~= padded_row(row@, (out@.len()) as nat));
    }
    assert(out@ =~= padded_row(row@, width as nat));
    out
}

/// Validates a batch and lays it out for the engine: each sequence becomes
/// one row, in the order given, padded with the pad symbol to the length of
/// the longest sequence; `lengths` records each row's true length.
/// An empty batch, or one with an empty sequence, is refused with an input
/// error, so that it never reaches the engine.
pub fn prepare(sequences: &Vec<Vec<i64>>) -> (r: Result<PaddedBatch, BridgeError>)
    ensures
        r is Ok <==> batch_is_valid(sequences.deep_view()),
        sequences@.len() == 0 ==> (r matches Err(e) && e.kind == ErrorKind::Input),
        (exists|i: int| 0 <= i < sequences@.len() && #[trigger] sequences@[i]@.len() == 0)
            ==> (r matches Err(e) && e.kind == ErrorKind::Input),
        r matches Err(e) ==> e.kind == ErrorKind::Input,
        r matches Ok(p) ==> {
            &&& p.wf()
            &&& p.lays_out(sequences.deep_view())
            &&& forall|i: int|
                0 <= i < sequences@.len() ==> #[trigger] p.lengths@[i] <= p.width
                    && p.rows@[i]@.subrange(0, p.lengths@[i] as int) == sequences@[i]@
        },
{
    let ghost batch = sequences.deep_view();
    assert(batch.len() == sequences@.len());
    assert(forall|i: int| 0 <= i < batch.len() ==> #[trigger] batch[i] == sequences@[i]@);
    if sequences.len() == 0 {
        return Err(BridgeError::input("the batch holds no sequences"));
    }
    let mut width: usize = 0;
    let ghost mut widest: int = 0;
    let mut i: usize = 0;
    while i < sequences.len()
        invariant
            i <= sequences@.len(),
            batch == sequences.deep_view(),
            batch.len() == sequences@.len(),
            forall|j: int| 0 <= j < batch.len() ==> #[trigger] batch[j] == sequences@[j]@,
            forall|j: int| 0 <= j < i ==> #[trigger] batch[j].len() > 0,
            forall|j: int| 0 <= j < i ==> #[trigger] batch[j].len() <= width,
            i == 0 ==> width == 0,
            i > 0 ==> 0 <= widest < i && batch[widest].len() == width,
        decreases sequences@.len() - i,
    {
        let len = sequences[i].len();
        if len == 0 {
            assert(!batch_is_valid(batch)) by {
                assert(batch[i as int].len() == 0);
            }
            return Err(BridgeError::input("the batch holds an empty sequence"));
        }
        if len > width {
            width = len;
            proof {
                widest = i as int;
            }
        }
        i = i + 1;
    }
    assert(batch[widest].len() == width);
    let mut rows: Vec<Vec<i64>> = Vec::new();
    let mut lengths: Vec<usize> = Vec::new();
    let mut i: usize = 0;
    while i < sequences.len()
        invariant
            i <= sequences@.len(),
            batch.len() == sequences@.len(),
            forall|j: int| 0 <= j < batch.len() ==> #[trigger] batch[j] == sequences@[j]@,
            forall|j: int| 0 <= j < batch.len() ==> #[trigger] batch[j].len() > 0,
            forall|j: int| 0 <= j < batch.len() ==> #[trigger] batch[j].len() <= width,
            rows@.len() == i,
            lengths@.len() == i,
            forall|j: int|
                0 <= j < i ==> {
                    &&& #[trigger] rows@[j]@ == padded_row(batch[j], width as nat)
                    &&& lengths@[j] == batch[j].len()
                },
        decreases sequences@.len() - i,
    {
        assert(batch[i as int] == sequences@[i as int]@);
        let row = pad_row(&sequences[i], width);
        rows.push(row);
        lengths.push(sequences[i].len());
        i = i + 1;
    }
    let p = PaddedBatch { rows, lengths, width };
    assert forall|j: int| 0 <= j < sequences@.len() implies #[trigger] sequences@[j]@.len() != 0 by {
        assert(batch[j] == sequences@[j]@);
    }
    assert forall|j: int| 0 <= j < sequences@.len() implies #[trigger] p.lengths@[j] <= p.width
        && p.rows@[j]@.subrange(0, p.lengths@[j] as int) == sequences@[j]@ by {
        assert(p.rows@[j]@.subrange(0, p.lengths@[j] as int) =~= batch[j]);
    }
    assert(p.wf()) by {
        assert forall|j: int| 0 <= j < p.rows@.len() implies #[trigger] p.rows@[j]@.len() == p.width
            && 0 < p.lengths@[j] <= p.width by {
            assert(p.rows@[j]@ == padded_row(batch[j], width as nat));
        }
    }
    Ok(p)
}

/// The waveform of the first entry of the engine's output record; the rest
/// of the record is dropped. A record with no entries is an extraction
/// error, never an empty waveform.
pub fn extract<W>(entries: Vec<W>) -> (r: Result<W, BridgeError>)
    ensures
        r is Ok <==> entries@.len() > 0,
        entries@.len() > 0 ==> r == Ok::<W, BridgeError>(entries@[0]),
        entries@.len() == 0 ==> (r matches Err(e) && e.kind == ErrorKind::Extraction),
{
    let mut entries = entries;
    if entries.len() == 0 {
        Err(BridgeError::no_audio())
    } else {
        Ok(entries.remove(0))
    }
}

} // verus!
