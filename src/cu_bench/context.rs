use vstd::prelude::*;

verus! {

/// Text form of a 32-byte program identifier.
pub uninterp spec fn program_id_text(id: Seq<u8>) -> Seq<char>;

/// Relies on `Display` for `solana_pubkey::Pubkey`: the base58 text of the key,
/// which depends on its 32 bytes alone.
#[verifier::external_body]
fn program_id_string(id: &[u8; 32]) -> (r: String)
    ensures
        r@ == program_id_text(id@),
{
    solana_pubkey::Pubkey::new_from_array(*id).to_string()
}

/// Whether two program identifiers are equal.
pub fn same_program_id(a: &[u8; 32], b: &[u8; 32]) -> (r: bool)
    ensures
        r == (a@ == b@),
{
    let mut i: usize = 0;
    while i < 32
        invariant
            i <= 32,
            a@.len() == 32,
            b@.len() == 32,
            forall|k: int| 0 <= k < i ==> a@[k] == b@[k],
        decreases 32 - i,
    {
        if a[i] != b[i] {
            return false;
        }
        i = i + 1;
    }
    assert(a@ =~= b@);
    true
}

/// Label stored for `id` in an address book, searching from entry `i`; the first
/// entry for `id` counts.
pub open spec fn book_label(book: Seq<([u8; 32], String)>, id: Seq<u8>, i: int) -> Option<
    Seq<char>,
>
    decreases book.len() - i,
{
    if i < 0 || i >= book.len() {
        None
    } else if book[i].0@ == id {
        Some(book[i].1@)
    } else {
        book_label(book, id, i + 1)
    }
}

/// Display name of a program: its label in the address book, else its text form.
pub open spec fn display_name(book: Seq<([u8; 32], String)>, id: Seq<u8>) -> Seq<char> {
    match book_label(book, id, 0) {
        Some(label) => label,
        None => program_id_text(id),
    }
}

/// Display name of `program_id`; an identifier missing from the address book is
/// shown in its text form.
pub fn lookup_program_name(program_id: &[u8; 32], address_book: &Vec<([u8; 32], String)>) -> (r:
    String)
    ensures
        r@ == display_name(address_book@, program_id@),
{
    let mut i: usize = 0;
    while i < address_book.len()
        invariant
            i <= address_book@.len(),
            book_label(address_book@, program_id@, 0) == book_label(
                address_book@,
                program_id@,
                i as int,
            ),
        decreases address_book@.len() - i,
    {
        if same_program_id(&address_book[i].0, program_id) {
            return address_book[i].1.clone();
        }
        i = i + 1;
    }
    program_id_string(program_id)
}


/// Virtual-machine state at the simulated pass.
#[derive(Debug, Clone, Copy)]
pub struct SVMContext {
    /// Current slot.
    pub current_slot: u64,
    /// Latest block-reference hash.
    pub latest_blockhash: [u8; 32],
}

/// The program addressed by a benchmarked instruction.
#[derive(Debug, Clone)]
pub struct ProgramContext {
    pub program_id: [u8; 32],
    pub program_name: String,
    /// Number of nested (inner) calls that the simulation reported.
    pub cpi_count: usize,
}

/// A program that a workflow invoked, directly or nested.
#[derive(Debug, Clone)]
pub struct ProgramInfo {
    pub program_id: [u8; 32],
    pub program_name: String,
    /// How many instructions, top-level and inner, invoked the program.
    pub instruction_count: usize,
}

impl ProgramInfo {
    pub open spec fn view(&self) -> (Seq<u8>, Seq<char>, nat) {
        (self.program_id@, self.program_name@, self.instruction_count as nat)
    }
}

/// The programs of a multi-instruction workflow and the order they ran in.
#[derive(Debug, Clone)]
pub struct WorkflowContext {
    pub workflow_name: String,
    /// Each invoked program once, with its number of invocations.
    pub involved_programs: Vec<ProgramInfo>,
    /// Display names of the invoked programs: top-level instructions in order,
    /// then inner instructions in order with a `_cpi` suffix.
    pub cpi_sequence: Vec<String>,
    /// Number of nested (inner) calls that the simulation reported.
    pub total_cpi_calls: usize,
}

/// Logs and cost of the simulated pass.
#[derive(Debug, Clone)]
pub struct ExecutionStats {
    pub logs: Vec<String>,
    pub simulated_cu: u64,
}

/// Context of one simulated pass of a single instruction.
#[derive(Debug, Clone)]
pub struct InstructionExecutionContext {
    pub svm_context: SVMContext,
    pub program_context: ProgramContext,
    pub execution_stats: ExecutionStats,
}

/// Context of one simulated pass of a whole transaction.
#[derive(Debug, Clone)]
pub struct TransactionExecutionContext {
    pub svm_context: SVMContext,
    pub workflow_context: WorkflowContext,
    pub execution_stats: ExecutionStats,
}

/// What context extraction reads of a compiled transaction message.
#[derive(Debug, Clone)]
pub struct MessageSummary {
    /// The message's account keys; an instruction names its program by an index
    /// into them.
    pub account_keys: Vec<[u8; 32]>,
    /// For each top-level instruction, in order, the index of its program.
    pub program_id_indices: Vec<u8>,
}

/// What context extraction reads of one simulated pass.
#[derive(Debug, Clone)]
pub struct SimulationSummary {
    /// For each set of inner instructions, in order, the program index of each
    /// of its instructions.
    pub inner_program_id_indices: Vec<Vec<u8>>,
    pub logs: Vec<String>,
    pub compute_units_consumed: u64,
}

/// Inner-instruction program indices, set after set.
pub open spec fn flat_indices(sets: Seq<Vec<u8>>) -> Seq<u8>
    decreases sets.len(),
{
    if sets.len() == 0 {
        Seq::empty()
    } else {
        flat_indices(sets.drop_last()) + sets.last()@
    }
}

/// Every program index of `indices` names an account key.
pub open spec fn indices_in_range(indices: Seq<u8>, n: int) -> bool {
    forall|j: int| 0 <= j < indices.len() ==> (#[trigger] indices[j]) < n
}

impl MessageSummary {
    /// Account keys are distinct and each top-level program index names one.
    pub open spec fn well_formed(&self) -> bool {
        &&& forall|a: int, b: int|
            0 <= a < b < self.account_keys@.len() ==> #[trigger] self.account_keys@[a]@
                != #[trigger] self.account_keys@[b]@
        &&& indices_in_range(self.program_id_indices@, self.account_keys@.len() as int)
    }

    /// The inner instructions of `sim` name programs among the account keys.
    pub open spec fn covers(&self, sim: &SimulationSummary) -> bool {
        indices_in_range(
            flat_indices(sim.inner_program_id_indices@),
            self.account_keys@.len() as int,
        )
    }

    /// Program indices of all invocations: top-level, then inner.
    pub open spec fn all_calls(&self, sim: &SimulationSummary) -> Seq<u8> {
        self.program_id_indices@ + flat_indices(sim.inner_program_id_indices@)
    }
}

/// Copies the simulation's logs and cost.
pub fn extract_execution_stats(simulation: &SimulationSummary) -> (r: ExecutionStats)
    ensures
        r.logs@ == simulation.logs@,
        r.simulated_cu == simulation.compute_units_consumed,
{
    let mut logs: Vec<String> = Vec::new();
    let mut i: usize = 0;
    while i < simulation.logs.len()
        invariant
            i <= simulation.logs@.len(),
            logs@ == simulation.logs@.subrange(0, i as int),
        decreases simulation.logs@.len() - i,
    {
        logs.push(simulation.logs[i].clone());
        assert(simulation.logs@.subrange(0, i + 1) =~= simulation.logs@.subrange(
            0,
            i as int,
        ).push(simulation.logs@[i as int]));
        i = i + 1;
    }
    assert(simulation.logs@.subrange(0, i as int) =~= simulation.logs@);
    ExecutionStats { logs, simulated_cu: simulation.compute_units_consumed }
}

/// The program addressed by the first instruction of `message`.
pub fn extract_program_context(
    message: &MessageSummary,
    simulation: &SimulationSummary,
    address_book: &Vec<([u8; 32], String)>,
) -> (r: ProgramContext)
    requires
        message.well_formed(),
        message.program_id_indices@.len() > 0,
    ensures
        r.program_id == message.account_keys@[message.program_id_indices@[0] as int],
        r.program_name@ == display_name(address_book@, r.program_id@),
        r.cpi_count == flat_indices(simulation.inner_program_id_indices@).len(),
{
    let index = message.program_id_indices[0] as usize;
    let program_id = message.account_keys[index];
    let program_name = lookup_program_name(&program_id, address_book);
    let calls = all_call_indices(message, simulation);
    ProgramContext {
        program_id,
        program_name,
        cpi_count: calls.len() - message.program_id_indices.len(),
    }
}


/// Number of invocations among `calls` of the program with index `k`.
pub open spec fn count_index(calls: Seq<u8>, k: int) -> nat
    decreases calls.len(),
{
    if calls.len() == 0 {
        0
    } else {
        count_index(calls.drop_last(), k) + if calls.last() as int == k {
            1nat
        } else {
            0nat
        }
    }
}

proof fn lemma_count_index_bound(calls: Seq<u8>, k: int)
    ensures
        count_index(calls, k) <= calls.len(),
    decreases calls.len(),
{
    if calls.len() > 0 {
        lemma_count_index_bound(calls.drop_last(), k);
    }
}

/// The invoked programs among the first `upto` account keys, in key order, each
/// with its display name and its number of invocations.
pub open spec fn involved_view(
    book: Seq<([u8; 32], String)>,
    keys: Seq<[u8; 32]>,
    calls: Seq<u8>,
    upto: int,
) -> Seq<(Seq<u8>, Seq<char>, nat)>
    decreases upto,
{
    if upto <= 0 {
        Seq::empty()
    } else {
        let before = involved_view(book, keys, calls, upto - 1);
        let k = upto - 1;
        if count_index(calls, k) > 0 {
            before.push((keys[k]@, display_name(book, keys[k]@), count_index(calls, k)))
        } else {
            before
        }
    }
}

/// Display name shown in the call sequence for invocation `j` of `calls`, whose
/// first `top` entries are top-level instructions.
pub open spec fn sequence_name(
    book: Seq<([u8; 32], String)>,
    keys: Seq<[u8; 32]>,
    top: int,
    calls: Seq<u8>,
    j: int,
) -> Seq<char> {
    let name = display_name(book, keys[calls[j] as int]@);
    if j < top {
        name
    } else {
        name + "_cpi"@
    }
}

/// Program indices of all invocations of `message` in `simulation`: top-level
/// instructions in order, then inner instructions set after set.
pub fn all_call_indices(message: &MessageSummary, simulation: &SimulationSummary) -> (r: Vec<u8>)
    ensures
        r@ == message.all_calls(simulation),
{
    let top = &message.program_id_indices;
    let inner = &simulation.inner_program_id_indices;
    let mut calls: Vec<u8> = Vec::new();
    let mut i: usize = 0;
    while i < top.len()
        invariant
            i <= top@.len(),
            calls@ == top@.subrange(0, i as int),
        decreases top@.len() - i,
    {
        calls.push(top[i]);
        assert(top@.subrange(0, i + 1) =~= top@.subrange(0, i as int).push(top@[i as int]));
        i = i + 1;
    }
    assert(top@.subrange(0, i as int) =~= top@);
    assert(inner@.subrange(0, 0) =~= Seq::<Vec<u8>>::empty());
    assert(calls@ =~= top@ + flat_indices(inner@.subrange(0, 0)));
    let mut s: usize = 0;
    while s < inner.len()
        invariant
            s <= inner@.len(),
            calls@ == top@ + flat_indices(inner@.subrange(0, s as int)),
        decreases inner@.len() - s,
    {
        let set = &inner[s];
        let ghost before = calls@;
        let mut t: usize = 0;
        while t < set.len()
            invariant
                t <= set@.len(),
                calls@ == before + set@.subrange(0, t as int),
            decreases set@.len() - t,
        {
            calls.push(set[t]);
            assert(set@.subrange(0, t + 1) =~= set@.subrange(0, t as int).push(set@[t as int]));
            assert(before + set@.subrange(0, t + 1) =~= (before + set@.subrange(0, t as int)).push(
                set@[t as int],
            ));
            t = t + 1;
        }
        proof {
            assert(set@.subrange(0, t as int) =~= set@);
            let next = inner@.subrange(0, s + 1);
            assert(next.drop_last() =~= inner@.subrange(0, s as int));
            assert(next.last() == inner@[s as int]);
            assert(flat_indices(next) == flat_indices(inner@.subrange(0, s as int)) + set@);
            assert(calls@ =~= top@ + flat_indices(next));
        }
        s = s + 1;
    }
    assert(inner@.subrange(0, s as int) =~= inner@);
    calls
}

proof fn lemma_all_calls_in_range(message: &MessageSummary, simulation: &SimulationSummary)
    requires
        message.well_formed(),
        message.covers(simulation),
    ensures
        indices_in_range(message.all_calls(simulation), message.account_keys@.len() as int),
{
    let top = message.program_id_indices@;
    let flat = flat_indices(simulation.inner_program_id_indices@);
    let all = message.all_calls(simulation);
    assert forall|j: int| 0 <= j < all.len() implies (#[trigger] all[j]) < message.account_keys@.len() by {
        if j < top.len() {
            assert(all[j] == top[j]);
        } else {
            assert(all[j] == flat[j - top.len()]);
        }
    }
}

/// The programs a transaction invoked, directly and through inner instructions,
/// with their invocation counts and the order of the calls.
pub fn extract_workflow_context(
    message: &MessageSummary,
    simulation: &SimulationSummary,
    workflow_name: String,
    address_book: &Vec<([u8; 32], String)>,
) -> (r: WorkflowContext)
    requires
        message.well_formed(),
        message.covers(simulation),
    ensures
        r.workflow_name == workflow_name,
        r.total_cpi_calls == flat_indices(simulation.inner_program_id_indices@).len(),
        r.involved_programs@.len() == involved_view(
            address_book@,
            message.account_keys@,
            message.all_calls(simulation),
            message.account_keys@.len() as int,
        ).len(),
        forall|i: int|
            0 <= i < r.involved_programs@.len() ==> #[trigger] r.involved_programs@[i].view()
                == involved_view(
                address_book@,
                message.account_keys@,
                message.all_calls(simulation),
                message.account_keys@.len() as int,
            )[i],
        r.cpi_sequence@.len() == message.all_calls(simulation).len(),
        forall|j: int|
            0 <= j < r.cpi_sequence@.len() ==> #[trigger] r.cpi_sequence@[j]@ == sequence_name(
                address_book@,
                message.account_keys@,
                message.program_id_indices@.len() as int,
                message.all_calls(simulation),
                j,
            ),
{
    let keys = &message.account_keys;
    let n = keys.len();
    let top_len = message.program_id_indices.len();
    let ghost book = address_book@;
    let calls = all_call_indices(message, simulation);
    let ghost all = calls@;
    proof {
        lemma_all_calls_in_range(message, simulation);
    }

    // Display names in call order, and invocations per account key.
    let mut names: Vec<String> = Vec::new();
    let mut counts: Vec<usize> = Vec::new();
    let mut k: usize = 0;
    while k < n
        invariant
            k <= n,
            counts@.len() == k,
            forall|x: int| 0 <= x < k ==> counts@[x] == 0,
        decreases n - k,
    {
        counts.push(0);
        k = k + 1;
    }
    let mut j: usize = 0;
    while j < calls.len()
        invariant
            calls@ == all,
            book == address_book@,
            n == keys@.len(),
            indices_in_range(all, n as int),
            j <= all.len(),
            names@.len() == j,
            forall|i: int|
                0 <= i < j ==> #[trigger] names@[i]@ == sequence_name(
                    book,
                    keys@,
                    top_len as int,
                    all,
                    i,
                ),
            counts@.len() == n,
            forall|x: int|
                0 <= x < n ==> #[trigger] counts@[x] == count_index(all.subrange(0, j as int), x),
        decreases all.len() - j,
    {
        let c = calls[j];
        assert(all[j as int] == c);
        let c = c as usize;
        let name = lookup_program_name(&keys[c], address_book);
        let name = if j < top_len {
            name
        } else {
            name.concat("_cpi")
        };
        names.push(name);
        proof {
            assert(all.subrange(0, j + 1).drop_last() =~= all.subrange(0, j as int));
            lemma_count_index_bound(all.subrange(0, j as int), c as int);
        }
        let bumped = counts[c] + 1;
        counts.set(c, bumped);
        j = j + 1;
    }
    assert(all.subrange(0, j as int) =~= all);

    // One entry per invoked program, in key order.
    let mut involved: Vec<ProgramInfo> = Vec::new();
    let mut k: usize = 0;
    while k < n
        invariant
            n == keys@.len(),
            book == address_book@,
            k <= n,
            counts@.len() == n,
            forall|x: int| 0 <= x < n ==> #[trigger] counts@[x] == count_index(all, x),
            involved@.len() == involved_view(book, keys@, all, k as int).len(),
            forall|i: int|
                0 <= i < involved@.len() ==> #[trigger] involved@[i].view() == involved_view(
                    book,
                    keys@,
                    all,
                    k as int,
                )[i],
        decreases n - k,
    {
        let ghost before = involved@;
        if counts[k] > 0 {
            let program_id = keys[k];
            let program_name = lookup_program_name(&program_id, address_book);
            let info = ProgramInfo { program_id, program_name, instruction_count: counts[k] };
            assert(info.view() == (keys@[k as int]@, display_name(book, keys@[k as int]@),
                count_index(all, k as int)));
            involved.push(info);
            assert(forall|i: int| 0 <= i < before.len() ==> involved@[i] == before[i]);
        }
        k = k + 1;
    }

    WorkflowContext {
        workflow_name,
        involved_programs: involved,
        cpi_sequence: names,
        total_cpi_calls: calls.len() - top_len,
    }
}


/// Context of one simulated pass of a single instruction, addressed by the first
/// instruction of `message`.
pub fn build_instruction_context(
    svm_context: SVMContext,
    message: &MessageSummary,
    simulation: &SimulationSummary,
    address_book: &Vec<([u8; 32], String)>,
) -> (r: InstructionExecutionContext)
    requires
        message.well_formed(),
        message.program_id_indices@.len() > 0,
    ensures
        r.svm_context == svm_context,
        r.program_context.program_id == message.account_keys@[message.program_id_indices@[0] as int],
        r.program_context.program_name@ == display_name(
            address_book@,
            r.program_context.program_id@,
        ),
        r.program_context.cpi_count == flat_indices(simulation.inner_program_id_indices@).len(),
        r.execution_stats.logs@ == simulation.logs@,
        r.execution_stats.simulated_cu == simulation.compute_units_consumed,
{
    InstructionExecutionContext {
        svm_context,
        program_context: extract_program_context(message, simulation, address_book),
        execution_stats: extract_execution_stats(simulation),
    }
}

/// Context of one simulated pass of a whole transaction.
pub fn build_transaction_context(
    svm_context: SVMContext,
    message: &MessageSummary,
    simulation: &SimulationSummary,
    workflow_name: String,
    address_book: &Vec<([u8; 32], String)>,
) -> (r: TransactionExecutionContext)
    requires
        message.well_formed(),
        message.covers(simulation),
    ensures
        r.svm_context == svm_context,
        r.workflow_context.workflow_name == workflow_name,
        r.workflow_context.total_cpi_calls == flat_indices(simulation.inner_program_id_indices@).len(),
        r.workflow_context.involved_programs@.len() == involved_view(
            address_book@,
            message.account_keys@,
            message.all_calls(simulation),
            message.account_keys@.len() as int,
        ).len(),
        forall|i: int|
            0 <= i < r.workflow_context.involved_programs@.len() ==> #[trigger] r.workflow_context.involved_programs@[i].view()
                == involved_view(
                address_book@,
                message.account_keys@,
                message.all_calls(simulation),
                message.account_keys@.len() as int,
            )[i],
        r.workflow_context.cpi_sequence@.len() == message.all_calls(simulation).len(),
        forall|j: int|
            0 <= j < r.workflow_context.cpi_sequence@.len() ==> #[trigger] r.workflow_context.cpi_sequence@[j]@
                == sequence_name(
                address_book@,
                message.account_keys@,
                message.program_id_indices@.len() as int,
                message.all_calls(simulation),
                j,
            ),
        r.execution_stats.logs@ == simulation.logs@,
        r.execution_stats.simulated_cu == simulation.compute_units_consumed,
{
    TransactionExecutionContext {
        svm_context,
        workflow_context: extract_workflow_context(
            message,
            simulation,
            workflow_name,
            address_book,
        ),
        execution_stats: extract_execution_stats(simulation),
    }
}

proof fn lemma_involved_view_skips_unused(
    book: Seq<([u8; 32], String)>,
    keys: Seq<[u8; 32]>,
    calls: Seq<u8>,
    lo: int,
    hi: int,
)
    requires
        0 <= lo <= hi,
        forall|k: int| lo <= k < hi ==> count_index(calls, k) == 0,
    ensures
        involved_view(book, keys, calls, hi) == involved_view(book, keys, calls, lo),
    decreases hi - lo,
{
    if hi > lo {
        lemma_involved_view_skips_unused(book, keys, calls, lo, hi - 1);
    }
}

/// A workflow whose top-level instructions call program `x` once and whose
/// nested calls call program `y` twice, and nothing else, involves exactly those
/// two programs, `x` with one invocation and `y` with two (listed in key order),
/// and its call sequence is the name of `x`, then the name of `y` with the
/// nested suffix, twice.
pub proof fn lemma_one_call_two_nested(
    message: &MessageSummary,
    simulation: &SimulationSummary,
    book: Seq<([u8; 32], String)>,
    x: u8,
    y: u8,
)
    requires
        message.well_formed(),
        message.covers(simulation),
        message.program_id_indices@ == seq![x],
        flat_indices(simulation.inner_program_id_indices@) == seq![y, y],
        x != y,
    ensures
        ({
            let keys = message.account_keys@;
            let calls = message.all_calls(simulation);
            let involved = involved_view(book, keys, calls, keys.len() as int);
            let entry_x = (keys[x as int]@, display_name(book, keys[x as int]@), 1nat);
            let entry_y = (keys[y as int]@, display_name(book, keys[y as int]@), 2nat);
            &&& involved.len() == 2
            &&& x < y ==> involved[0] == entry_x && involved[1] == entry_y
            &&& y < x ==> involved[0] == entry_y && involved[1] == entry_x
            &&& calls.len() == 3
            &&& sequence_name(book, keys, 1, calls, 0) == display_name(book, keys[x as int]@)
            &&& sequence_name(book, keys, 1, calls, 1) == display_name(book, keys[y as int]@)
                + "_cpi"@
            &&& sequence_name(book, keys, 1, calls, 2) == display_name(book, keys[y as int]@)
                + "_cpi"@
        }),
{
    let keys = message.account_keys@;
    let n = keys.len() as int;
    let calls = message.all_calls(simulation);
    assert(calls =~= seq![x, y, y]);
    assert(calls.drop_last() =~= seq![x, y]);
    assert(calls.drop_last().drop_last() =~= seq![x]);
    assert(calls.drop_last().drop_last().drop_last() =~= Seq::<u8>::empty());
    assert forall|k: int| #![auto] count_index(calls, k) == (if k == x as int {
        1nat
    } else if k == y as int {
        2nat
    } else {
        0nat
    }) by {
        let c1 = calls.drop_last().drop_last();
        let c2 = calls.drop_last();
        assert(count_index(c1.drop_last(), k) == 0);
        assert(count_index(c1, k) == if k == x as int { 1nat } else { 0nat });
        assert(count_index(c2, k) == count_index(c1, k) + if k == y as int { 1nat } else { 0nat });
        assert(count_index(calls, k) == count_index(c2, k) + if k == y as int { 1nat } else { 0nat });
    }
    assert(x < n && y < n) by {
        assert(indices_in_range(message.program_id_indices@, n));
        assert(message.program_id_indices@[0] == x);
        assert(flat_indices(simulation.inner_program_id_indices@)[0] == y);
    }
    let lo = if x < y { x as int } else { y as int };
    let hi = if x < y { y as int } else { x as int };
    lemma_involved_view_skips_unused(book, keys, calls, 0, lo);
    assert(involved_view(book, keys, calls, lo + 1).len() == 1);
    lemma_involved_view_skips_unused(book, keys, calls, lo + 1, hi);
    assert(involved_view(book, keys, calls, hi + 1).len() == 2);
    lemma_involved_view_skips_unused(book, keys, calls, hi + 1, n);
}

} // verus!
