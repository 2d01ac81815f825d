//! The functions of a pipe: functions built from a value, remote functions
//! that run a batch of columns in chunks, and connectors that pace them.

pub mod connector;

use vstd::prelude::*;
use std::sync::Arc;

verus! {

/// Why a function could not be built or run.
#[derive(Debug)]
pub enum FunctionError {
    /// The builder was given no function.
    EmptyOwnedFunction,
    /// A call had no input rows.
    EmptyInputs,
}

/// The arguments of a builder that owns its function: the function, or
/// none where the arguments came from the command line.
pub struct OwnedFunctionBuilderArgs<F>(pub Option<Arc<F>>);

impl<F> OwnedFunctionBuilderArgs<F> {
    /// Arguments that own `function`.
    pub fn new(function: F) -> (r: Self)
        ensures
            r.0 matches Some(f) && *f == function,
    {
        OwnedFunctionBuilderArgs(Some(Arc::new(function)))
    }

    /// Arguments read from the command line, which cannot carry a function.
    pub fn from_arg_matches() -> (r: Self)
        ensures
            r.0 is None,
    {
        OwnedFunctionBuilderArgs(None)
    }
}

/// A builder that hands out a shared function.
pub struct OwnedFunctionBuilder<F>(pub Arc<F>);

impl<F> OwnedFunctionBuilder<F> {
    /// The builder of the function in `args`; arguments without one are
    /// refused.
    pub fn try_new(args: &OwnedFunctionBuilderArgs<F>) -> (r: Result<Self, FunctionError>)
        ensures
            args.0 is None ==> (r matches Err(FunctionError::EmptyOwnedFunction)),
            args.0 matches Some(f) ==> (r matches Ok(b) && *b.0 == *f),
    {
        match &args.0 {
            Some(f) => Ok(OwnedFunctionBuilder(Arc::clone(f))),
            None => Err(FunctionError::EmptyOwnedFunction),
        }
    }
}

/// A function whose calls go to a remote model; `publisher` stands for the
/// messenger's publisher of that model.
pub struct StatelessRemoteFunction<P> {
    pub publisher: P,
}

/// The rows sent to a remote function in one call of a batch function.
pub const DELTA_CHUNK_SIZE: usize = 8;

impl<P> StatelessRemoteFunction<P> {
    /// This function as a batch function over columns of the given input
    /// and output schemas, sending its rows in chunks of eight.
    pub fn into_delta<S>(self, input: S, output: S) -> (r: DeltaFunction<P, S>)
        ensures
            r.chunk_size == DELTA_CHUNK_SIZE,
            r.inner == self,
            r.input == input,
            r.output == output,
    {
        DeltaFunction { chunk_size: DELTA_CHUNK_SIZE, inner: self, input, output }
    }
}

/// A batch function over columns that calls a remote function chunk by
/// chunk.
pub struct DeltaFunction<P, S> {
    pub chunk_size: usize,
    pub inner: StatelessRemoteFunction<P>,
    pub input: S,
    pub output: S,
}

/// The shape of one input column of a batch call.
#[derive(Copy, Clone, Debug, PartialEq, Eq, Structural)]
pub enum ColumnShape {
    /// An array of the given number of rows.
    Array(usize),
    /// A single value, repeated over the rows.
    Scalar,
}

/// The rows of a column: its length, or one for a scalar.
pub open spec fn spec_rows(c: ColumnShape) -> nat {
    match c {
        ColumnShape::Array(n) => n as nat,
        ColumnShape::Scalar => 1,
    }
}

/// The largest number of rows among the columns, or zero for none.
pub open spec fn spec_max_rows(cols: Seq<ColumnShape>) -> nat
    decreases cols.len(),
{
    if cols.len() == 0 {
        0
    } else {
        let rest = spec_max_rows(cols.drop_last());
        let last = spec_rows(cols.last());
        if rest >= last {
            rest
        } else {
            last
        }
    }
}

/// The rows of a batch call: those of its one column, or, for several
/// columns, the most rows of any, where that is not zero.
pub open spec fn spec_num_rows(cols: Seq<ColumnShape>) -> Option<nat> {
    if cols.len() == 1 {
        Some(spec_rows(cols[0]))
    } else if spec_max_rows(cols) == 0 {
        None
    } else {
        Some(spec_max_rows(cols))
    }
}

/// The rows of a batch call; `EmptyInputs` where several (or no) columns
/// have no rows at all.
pub fn num_rows(cols: &Vec<ColumnShape>) -> (r: Result<usize, FunctionError>)
    ensures
        match spec_num_rows(cols@) {
            Some(n) => r matches Ok(m) && m == n,
            None => r matches Err(FunctionError::EmptyInputs),
        },
{
    if cols.len() == 1 {
        return Ok(match cols[0] {
            ColumnShape::Array(n) => n,
            ColumnShape::Scalar => 1,
        });
    }
    let mut best: usize = 0;
    let mut i: usize = 0;
    while i < cols.len()
        invariant
            i <= cols@.len(),
            best == spec_max_rows(cols@.take(i as int)),
        decreases cols@.len() - i,
    {
        proof {
            assert(cols@.take(i + 1).drop_last() =~= cols@.take(i as int));
        }
        let rows: usize = match cols[i] {
            ColumnShape::Array(n) => n,
            ColumnShape::Scalar => 1,
        };
        if rows > best {
            best = rows;
        }
        i = i + 1;
    }
    proof {
        assert(cols@.take(cols@.len() as int) =~= cols@);
    }
    if best == 0 {
        Err(FunctionError::EmptyInputs)
    } else {
        Ok(best)
    }
}

/// The chunks in which a batch of `n` rows is sent, `size` rows each but
/// the last.
pub fn chunks(n: usize, size: usize) -> (r: Vec<(usize, usize)>)
    requires
        size > 0,
    ensures
        r@.len() == (if n == 0 { 0 } else { (n - 1) as nat / size as nat + 1 }),
        forall|i: int|
            0 <= i < r@.len() ==> (#[trigger] r@[i]).0 == i * size && r@[i].1 == (if n - i * size
                < size {
                n - i * size
            } else {
                size as int
            }),
{
    let mut r: Vec<(usize, usize)> = Vec::new();
    let mut offset: usize = 0;
    let ghost mut k: int = 0;
    while offset < n
        invariant
            size > 0,
            k == r@.len(),
            offset == k * size || (offset >= n && k > 0),
            offset <= n || offset == k * size,
            k * size <= n + size,
            forall|i: int|
                0 <= i < r@.len() ==> (#[trigger] r@[i]).0 == i * size && r@[i].1 == (if n - i * size
                    < size {
                    n - i * size
                } else {
                    size as int
                }),
            n > 0 && offset >= n ==> k == (n - 1) as nat / size as nat + 1,
            k > 0 ==> n > 0,
            offset < n ==> k * size < n + size && k == offset as int / size as int && offset as int % size as int == 0,
        decreases n - offset,
    {
        let left = n - offset;
        let len = if left < size { left } else { size };
        r.push((offset, len));
        proof {
            assert(offset == k * size);
            lemma_div_step(offset as int, size as int, k, n as int);
            k = k + 1;
        }
        if left <= size {
            offset = n;
        } else {
            offset = offset + size;
        }
    }
    r
}

proof fn lemma_div_step(offset: int, size: int, k: int, n: int)
    requires
        size > 0,
        offset == k * size,
        0 <= offset < n,
        k >= 0,
    ensures
        (n - offset <= size) ==> (n - 1) / size == k,
        (n - offset > size) ==> (offset + size) / size == k + 1 && (offset + size) % size == 0,
        (k + 1) * size == offset + size,
{
    assert((k + 1) * size == k * size + size) by (nonlinear_arith);
    if n - offset <= size {
        assert(k * size <= n - 1 < (k + 1) * size);
        assert((n - 1) / size == k) by (nonlinear_arith)
            requires
                k * size <= n - 1,
                n - 1 < (k + 1) * size,
                size > 0,
        {
        }
    } else {
        assert((offset + size) / size == k + 1 && (offset + size) % size == 0) by (nonlinear_arith)
            requires
                offset + size == (k + 1) * size,
                size > 0,
        {
        }
    }
}

/// A batch call in progress: the chunks of rows it sends, how many of them
/// have been answered, and the outputs so far, in order.
pub struct BatchCall<T> {
    pub chunks: Vec<(usize, usize)>,
    pub done: usize,
    pub outputs: Vec<T>,
}

/// What a batch call does next: call the inner function on the rows from
/// an offset, of a length; end with its outputs; or stop with the first
/// error of the inner function.
pub enum BatchStep<E> {
    Call(usize, usize),
    Done,
    Failed(E),
}

impl<T> BatchCall<T> {
    /// The step that follows once `done` chunks are answered: the next
    /// chunk, or the end.
    pub open spec fn spec_next<E>(&self) -> BatchStep<E> {
        if self.done < self.chunks@.len() {
            BatchStep::Call(self.chunks@[self.done as int].0, self.chunks@[self.done as int].1)
        } else {
            BatchStep::Done
        }
    }

    /// Starts a batch call over input columns of the given shapes, in
    /// chunks of `chunk_size` rows: `EmptyInputs` where the columns have no
    /// rows; else the first chunk is called.
    pub fn start<E>(cols: &Vec<ColumnShape>, chunk_size: usize) -> (r: Result<(BatchCall<T>, BatchStep<E>), FunctionError>)
        requires
            chunk_size > 0,
        ensures
            match spec_num_rows(cols@) {
                None => r matches Err(FunctionError::EmptyInputs),
                Some(n) => r matches Ok((call, step)) && call.done == 0 && call.outputs@.len() == 0 && call.chunks@.len()
                    == (if n == 0 { 0 } else { (n - 1) as nat / chunk_size as nat + 1 }) && (forall|i: int|
                    0 <= i < call.chunks@.len() ==> (#[trigger] call.chunks@[i]).0 == i * chunk_size
                        && call.chunks@[i].1 == (if n - i * chunk_size < chunk_size {
                        n - i * chunk_size
                    } else {
                        chunk_size as int
                    })) && step == call.spec_next::<E>(),
            },
    {
        let n = match num_rows(cols) {
            Ok(n) => n,
            Err(e) => return Err(e),
        };
        let call = BatchCall { chunks: chunks(n, chunk_size), done: 0, outputs: Vec::new() };
        let step = call.next();
        Ok((call, step))
    }

    /// The step that follows; see `spec_next`.
    pub fn next<E>(&self) -> (r: BatchStep<E>)
        ensures
            r == self.spec_next::<E>(),
    {
        if self.done < self.chunks.len() {
            let (offset, len) = self.chunks[self.done];
            BatchStep::Call(offset, len)
        } else {
            BatchStep::Done
        }
    }

    /// Takes in what the inner function returned for the chunk that was
    /// called: its outputs are appended and the next chunk follows; its
    /// error stops the call, and nothing more is called.
    pub fn on_result<E>(&mut self, result: Result<Vec<T>, E>) -> (r: BatchStep<E>)
        requires
            old(self).done < old(self).chunks@.len(),
        ensures
            final(self).chunks@ == old(self).chunks@,
            match result {
                Ok(v) => final(self).done == old(self).done + 1 && final(self).outputs@ == old(self).outputs@ + v@
                    && r == final(self).spec_next::<E>(),
                Err(e) => final(self).done == old(self).done && final(self).outputs@ == old(self).outputs@ && r
                    == BatchStep::<E>::Failed(e),
            },
    {
        match result {
            Ok(v) => {
                let total = self.chunks.len();
                let mut v = v;
                self.outputs.append(&mut v);
                proof {
                    assert(self.done < total);
                }
                self.done = self.done + 1;
                self.next()
            },
            Err(e) => BatchStep::Failed(e),
        }
    }
}

} // verus!
