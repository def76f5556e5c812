//! Function hooking: single hooks, batches of hooks, and ElleKit's native entry points.
//!
//! Each operation receives the foreign call it needs as a closure; its contract
//! states which arguments the call receives and what the operation returns for
//! every answer of the call.

use vstd::prelude::*;
use crate::error::{Error, Result};
use crate::sys::LHFunctionHook;
use vstd::string::StringSliceAdditionalSpecFns;

verus! {

/// Largest number of hooks in one batch.
pub const MAX_BATCH_HOOKS: usize = 32;

/// Longest symbol name, in bytes, that `hook_symbol` accepts (one byte of the
/// 256-byte buffer is kept for the terminating NUL).
pub const MAX_SYMBOL_NAME_LEN: usize = 255;

/// The NUL-terminated, zero-padded 256-byte buffer that holds a symbol name.
pub open spec fn symbol_buffer(name: Seq<u8>) -> Seq<u8> {
    Seq::new(256, |i: int| if i < name.len() { name[i] } else { 0u8 })
}

/// The buffer of an accepted symbol name is a C string that spells the name: it
/// starts with the name's bytes, the byte after them is NUL, and it is 256 bytes long.
pub proof fn lemma_symbol_buffer_is_c_string(name: Seq<u8>)
    requires
        name.len() <= MAX_SYMBOL_NAME_LEN,
    ensures
        symbol_buffer(name).len() == 256,
        symbol_buffer(name).subrange(0, name.len() as int) == name,
        symbol_buffer(name)[name.len() as int] == 0u8,
{
    assert(symbol_buffer(name).subrange(0, name.len() as int) =~= name);
}

/// A handle to a hooked function: it keeps the address of the unhooked implementation.
pub struct FunctionHook {
    original: usize,
}

impl View for FunctionHook {
    type V = usize;

    /// Address of the unhooked implementation.
    closed spec fn view(&self) -> usize {
        self.original
    }
}

/// What a hook operation returns once the hook call answered `original`.
pub open spec fn hook_outcome(r: Result<FunctionHook>, original: usize) -> bool {
    if original == 0 {
        r == Err::<FunctionHook, Error>(Error::Other("Hook failed - original is null"))
    } else {
        r matches Ok(h) && h@ == original
    }
}

/// A hook operation keeps exactly the address its hook call answered: a null
/// answer is the failure "Hook failed - original is null", and any other answer is
/// kept unchanged as the hook's address.
pub proof fn lemma_hook_outcome_keeps_answer(r: Result<FunctionHook>, original: usize)
    requires
        hook_outcome(r, original),
    ensures
        (r is Ok) == (original != 0),
        r matches Ok(h) ==> h@ == original,
        r matches Err(e) ==> e == Error::Other("Hook failed - original is null"),
{
}

impl FunctionHook {
    /// A hook always holds the non-null address of the unhooked implementation.
    #[verifier::type_invariant]
    closed spec fn holds_original(self) -> bool {
        self.original != 0
    }

    /// Hook the function named `symbol_name`, searched in every loaded image.
    ///
    /// The name is copied into a zero-filled 256-byte buffer, which makes it a
    /// C string; `ms_find_symbol(0, buffer)` resolves it and
    /// `ms_hook_function(target, replacement)` installs the hook and answers the
    /// address of the unhooked implementation.
    pub fn hook_symbol<F, G>(
        symbol_name: &str,
        replacement: usize,
        ms_find_symbol: F,
        ms_hook_function: G,
    ) -> (r: Result<Self>) where F: FnOnce(usize, &[u8]) -> usize, G: FnOnce(usize, usize) -> usize
        requires
            symbol_name.spec_bytes().len() <= MAX_SYMBOL_NAME_LEN ==> forall|buf: &[u8]|
                buf@ == symbol_buffer(symbol_name.spec_bytes()) ==> #[trigger] call_requires(
                    ms_find_symbol,
                    (0usize, buf),
                ),
            symbol_name.spec_bytes().len() <= MAX_SYMBOL_NAME_LEN ==> forall|buf: &[u8], target: usize|
                #![trigger call_ensures(ms_find_symbol, (0usize, buf), target)]
                buf@ == symbol_buffer(symbol_name.spec_bytes()) && call_ensures(
                    ms_find_symbol,
                    (0usize, buf),
                    target,
                ) && target != 0 ==> call_requires(ms_hook_function, (target, replacement)),
        ensures
            symbol_name.spec_bytes().len() > MAX_SYMBOL_NAME_LEN ==> r == Err::<Self, Error>(
                Error::Other("Symbol name too long"),
            ),
            symbol_name.spec_bytes().len() <= MAX_SYMBOL_NAME_LEN ==> exists|buf: &[u8], target: usize|
                #![trigger call_ensures(ms_find_symbol, (0usize, buf), target)]
                {
                    &&& buf@ == symbol_buffer(symbol_name.spec_bytes())
                    &&& call_ensures(ms_find_symbol, (0usize, buf), target)
                    &&& target == 0 ==> r == Err::<Self, Error>(Error::SymbolNotFound)
                    &&& target != 0 ==> exists|original: usize|
                        #[trigger] call_ensures(ms_hook_function, (target, replacement), original)
                            && hook_outcome(r, original)
                },
            r matches Ok(h) ==> h@ != 0 && exists|target: usize|
                target != 0 && #[trigger] call_ensures(ms_hook_function, (target, replacement), h@),
    {
        let name = symbol_name.as_bytes();
        let len = name.len();
        if len > MAX_SYMBOL_NAME_LEN {
            return Err(Error::Other("Symbol name too long"));
        }
        let mut buffer: Vec<u8> = Vec::new();
        let mut i: usize = 0;
        while i < 256
            invariant
                name@ == symbol_name.spec_bytes(),
                len == name@.len(),
                len <= MAX_SYMBOL_NAME_LEN,
                i <= 256,
                buffer@.len() == i,
                forall|j: int| 0 <= j < i ==> buffer@[j] == symbol_buffer(name@)[j],
            decreases 256 - i,
        {
            if i < len {
                buffer.push(name[i]);
            } else {
                buffer.push(0u8);
            }
            i = i + 1;
        }
        assert(buffer@ =~= symbol_buffer(name@));
        let target = ms_find_symbol(0usize, buffer.as_slice());
        if target == 0 {
            return Err(Error::SymbolNotFound);
        }
        let original = ms_hook_function(target, replacement);
        if original == 0 {
            return Err(Error::Other("Hook failed - original is null"));
        }
        Ok(FunctionHook { original })
    }

    /// Hook the function at `target` with `replacement`; `ms_hook_function`
    /// installs the hook and answers the address of the unhooked implementation.
    pub fn hook_function<F>(target: usize, replacement: usize, ms_hook_function: F) -> (r: Result<
        Self,
    >) where F: FnOnce(usize, usize) -> usize
        requires
            target != 0 ==> call_requires(ms_hook_function, (target, replacement)),
        ensures
            target == 0 ==> r == Err::<Self, Error>(Error::NullPointer),
            target != 0 ==> exists|original: usize|
                #[trigger] call_ensures(ms_hook_function, (target, replacement), original) && hook_outcome(
                    r,
                    original,
                ),
            r matches Ok(h) ==> target != 0 && h@ != 0 && call_ensures(
                ms_hook_function,
                (target, replacement),
                h@,
            ),
    {
        if target == 0 {
            return Err(Error::NullPointer);
        }
        let original = ms_hook_function(target, replacement);
        if original == 0 {
            return Err(Error::Other("Hook failed - original is null"));
        }
        Ok(FunctionHook { original })
    }

    /// Address of the unhooked implementation.
    pub fn original(&self) -> (r: usize)
        ensures
            r == self@,
            r != 0,
    {
        proof {
            use_type_invariant(self);
        }
        self.original
    }
}

/// The descriptor that a batch hands to `LHHookFunctions` for one hook; the
/// platform glue points `oldptr` at the slot that receives the original.
pub open spec fn hook_descriptor(target: usize, replacement: usize) -> LHFunctionHook {
    LHFunctionHook { function: target, replacement, oldptr: 0, options: 0 }
}

/// A batch of function hooks, installed together by `commit`.
///
/// Its view is the sequence of `(target, replacement)` pairs in the order they were added.
pub struct FunctionHookBatch {
    hooks: Vec<LHFunctionHook>,
}

impl View for FunctionHookBatch {
    type V = Seq<(usize, usize)>;

    closed spec fn view(&self) -> Seq<(usize, usize)> {
        Seq::new(self.hooks@.len(), |i: int| (self.hooks@[i].function, self.hooks@[i].replacement))
    }
}

impl FunctionHookBatch {
    /// A batch holds at most `MAX_BATCH_HOOKS` hooks, none of them with a null address.
    #[verifier::type_invariant]
    closed spec fn well_formed(self) -> bool {
        &&& self.hooks@.len() <= MAX_BATCH_HOOKS
        &&& forall|i: int|
            0 <= i < self.hooks@.len() ==> #[trigger] self.hooks@[i] == hook_descriptor(
                self.hooks@[i].function,
                self.hooks@[i].replacement,
            ) && self.hooks@[i].function != 0 && self.hooks@[i].replacement != 0
    }

    /// Create an empty batch.
    pub fn new() -> (r: Self)
        ensures
            r@ == Seq::<(usize, usize)>::empty(),
    {
        let r = FunctionHookBatch { hooks: Vec::new() };
        assert(r@ =~= Seq::<(usize, usize)>::empty());
        r
    }

    /// Add the hook of `target` by `replacement`; the answer is the index of the
    /// hook in the batch, by which `FunctionHookBatchResult::original` finds its original.
    pub fn add(&mut self, target: usize, replacement: usize) -> (r: Result<usize>)
        ensures
            old(self)@.len() >= MAX_BATCH_HOOKS ==> r == Err::<usize, Error>(Error::Other("Batch full"))
                && final(self)@ == old(self)@,
            old(self)@.len() < MAX_BATCH_HOOKS && (target == 0 || replacement == 0) ==> r == Err::<
                usize,
                Error,
            >(Error::NullPointer) && final(self)@ == old(self)@,
            old(self)@.len() < MAX_BATCH_HOOKS && target != 0 && replacement != 0 ==> r == Ok::<
                usize,
                Error,
            >(old(self)@.len() as usize) && final(self)@ == old(self)@.push((target, replacement)),
            (final(self)@, r) == add_step(old(self)@, target, replacement),
    {
        proof {
            use_type_invariant(&*self);
        }
        if self.hooks.len() >= MAX_BATCH_HOOKS {
            return Err(Error::Other("Batch full"));
        }
        if target == 0 || replacement == 0 {
            return Err(Error::NullPointer);
        }
        let idx = self.hooks.len();
        let ghost before = self@;
        let mut hooks: Vec<LHFunctionHook> = Vec::new();
        core::mem::swap(&mut hooks, &mut self.hooks);
        hooks.push(LHFunctionHook { function: target, replacement, oldptr: 0, options: 0 });
        self.hooks = hooks;
        assert(self@ =~= before.push((target, replacement)));
        Ok(idx)
    }

    /// Install every hook of the batch at once.
    ///
    /// `lh_hook_functions(descriptors, count)` performs the installation and answers
    /// its status code (0 on success) and the original addresses it wrote for the
    /// hooks, in batch order; a slot it did not write stays null.
    pub fn commit<F>(self, lh_hook_functions: F) -> (r: Result<FunctionHookBatchResult>) where
        F: FnOnce(&[LHFunctionHook], i32) -> (i32, Vec<usize>),
        requires
            self@.len() > 0 ==> forall|table: &[LHFunctionHook]|
                table@ == batch_descriptors(self@) ==> #[trigger] call_requires(
                    lh_hook_functions,
                    (table, self@.len() as i32),
                ),
        ensures
            self@.len() == 0 ==> r == Err::<FunctionHookBatchResult, Error>(
                Error::Other("No hooks in batch"),
            ),
            self@.len() > 0 ==> exists|table: &[LHFunctionHook], answer: (i32, Vec<usize>)|
                #![trigger call_ensures(lh_hook_functions, (table, self@.len() as i32), answer)]
                {
                    &&& table@ == batch_descriptors(self@)
                    &&& table@.len() == self@.len()
                    &&& forall|i: int|
                        0 <= i < self@.len() ==> (#[trigger] table@[i]).function == self@[i].0
                            && table@[i].replacement == self@[i].1
                    &&& call_ensures(lh_hook_functions, (table, self@.len() as i32), answer)
                    &&& answer.0 != 0 ==> r == Err::<FunctionHookBatchResult, Error>(
                        Error::Other("Batch hook failed"),
                    )
                    &&& answer.0 == 0 ==> (r matches Ok(res) && res@ == batch_originals(
                        self@.len(),
                        answer.1@,
                    ) && res@.len() == self@.len() && forall|i: int|
                        0 <= i < self@.len() && i < answer.1@.len() ==> #[trigger] res@[i]
                            == answer.1@[i])
                },
    {
        proof {
            use_type_invariant(&self);
        }
        let count = self.hooks.len();
        if count == 0 {
            return Err(Error::Other("No hooks in batch"));
        }
        assert(self.hooks@ =~= batch_descriptors(self@));
        let answer = lh_hook_functions(self.hooks.as_slice(), count as i32);
        if answer.0 != 0 {
            return Err(Error::Other("Batch hook failed"));
        }
        let written = answer.1;
        let mut originals: Vec<usize> = Vec::new();
        let mut i: usize = 0;
        while i < count
            invariant
                i <= count,
                originals@ =~= batch_originals(i as nat, written@),
            decreases count - i,
        {
            if i < written.len() {
                originals.push(written[i]);
            } else {
                originals.push(0usize);
            }
            i = i + 1;
        }
        Ok(FunctionHookBatchResult { originals })
    }

    /// Number of hooks in the batch.
    pub fn len(&self) -> (r: usize)
        ensures
            r == self@.len(),
            r <= MAX_BATCH_HOOKS,
    {
        proof {
            use_type_invariant(self);
        }
        self.hooks.len()
    }

    /// Whether the batch holds no hook.
    pub fn is_empty(&self) -> (r: bool)
        ensures
            r == (self@.len() == 0),
    {
        self.hooks.len() == 0
    }
}

/// One `add` of `(target, replacement)` to a batch whose hooks are `hooks`: the
/// hooks afterwards and the answer.
pub open spec fn add_step(hooks: Seq<(usize, usize)>, target: usize, replacement: usize) -> (Seq<
    (usize, usize),
>, Result<usize>) {
    if hooks.len() >= MAX_BATCH_HOOKS {
        (hooks, Err::<usize, Error>(Error::Other("Batch full")))
    } else if target == 0 || replacement == 0 {
        (hooks, Err::<usize, Error>(Error::NullPointer))
    } else {
        (hooks.push((target, replacement)), Ok::<usize, Error>(hooks.len() as usize))
    }
}

/// A new batch that receives the `add` requests `requests` in order: its hooks
/// afterwards and the answer to each request.
pub open spec fn replay_adds(requests: Seq<(usize, usize)>) -> (Seq<(usize, usize)>, Seq<
    Result<usize>,
>)
    decreases requests.len(),
{
    if requests.len() == 0 {
        (Seq::empty(), Seq::empty())
    } else {
        let before = replay_adds(requests.drop_last());
        let step = add_step(before.0, requests.last().0, requests.last().1);
        (step.0, before.1.push(step.1))
    }
}

/// Whether some answer is the successful index `k`.
pub open spec fn index_answered(answers: Seq<Result<usize>>, k: int) -> bool {
    exists|i: int| 0 <= i < answers.len() && #[trigger] answers[i] == Ok::<usize, Error>(k as usize)
}

/// Number of successful answers.
pub open spec fn ok_count(answers: Seq<Result<usize>>) -> nat
    decreases answers.len(),
{
    if answers.len() == 0 {
        0
    } else {
        ok_count(answers.drop_last()) + if answers.last() is Ok {
            1nat
        } else {
            0nat
        }
    }
}

/// Over any sequence of `add` calls on a new batch: the batch never holds more than
/// `MAX_BATCH_HOOKS` hooks, it holds exactly as many as there were successful adds,
/// each successful add answers the number of successful adds before it, and the
/// indices answered are exactly `0, 1, ..., len - 1`, each once.
pub proof fn lemma_add_sequence(requests: Seq<(usize, usize)>)
    ensures
        replay_adds(requests).1.len() == requests.len(),
        replay_adds(requests).0.len() <= MAX_BATCH_HOOKS,
        replay_adds(requests).0.len() == ok_count(replay_adds(requests).1),
        forall|i: int|
            0 <= i < requests.len() ==> (#[trigger] replay_adds(requests).1[i] matches Ok(k) ==> k
                == ok_count(replay_adds(requests).1.take(i))),
        forall|i: int, j: int|
            0 <= i < j < requests.len() && replay_adds(requests).1[i] is Ok
                && replay_adds(requests).1[j] is Ok ==> #[trigger] replay_adds(requests).1[i]->Ok_0
                < #[trigger] replay_adds(requests).1[j]->Ok_0,
        forall|k: int|
            0 <= k < replay_adds(requests).0.len() ==> #[trigger] index_answered(
                replay_adds(requests).1,
                k,
            ),
    decreases requests.len(),
{
    if requests.len() > 0 {
        let prev_requests = requests.drop_last();
        lemma_add_sequence(prev_requests);
        let before = replay_adds(prev_requests);
        let step = add_step(before.0, requests.last().0, requests.last().1);
        let answers = replay_adds(requests).1;
        assert(answers == before.1.push(step.1));
        assert(answers.drop_last() =~= before.1);
        assert forall|i: int| 0 <= i < before.1.len() implies answers.take(i) =~= before.1.take(i) by {}
        assert(answers.take(before.1.len() as int) =~= before.1);
        assert forall|i: int|
            0 <= i < requests.len() implies (#[trigger] answers[i] matches Ok(k) ==> k == ok_count(
                answers.take(i),
            )) by {
            if i < before.1.len() {
                assert(answers[i] == before.1[i]);
                assert(answers.take(i) =~= before.1.take(i));
            }
        }
        assert forall|i: int, j: int|
            0 <= i < j < requests.len() && answers[i] is Ok && answers[j] is Ok implies #[trigger] answers[i]->Ok_0
                < #[trigger] answers[j]->Ok_0 by {
            assert(answers[i] == before.1[i]);
            if j < before.1.len() {
                assert(answers[j] == before.1[j]);
                assert(before.1[i]->Ok_0 < before.1[j]->Ok_0);
            } else {
                assert(before.1[i] matches Ok(k) ==> k == ok_count(before.1.take(i)));
                lemma_ok_count_prefix(before.1, i);
            }
        }
        assert forall|k: int| 0 <= k < replay_adds(requests).0.len() implies #[trigger] index_answered(
            answers,
            k,
        ) by {
            if k < before.0.len() {
                assert(index_answered(before.1, k));
                let i = choose|i: int| 0 <= i < before.1.len() && #[trigger] before.1[i] == Ok::<usize, Error>(k as usize);
                assert(answers[i] == before.1[i]);
            } else {
                assert(answers[requests.len() - 1] == step.1);
            }
        }
    }
}

/// Successful answers before position `i` are fewer than all successful answers
/// when the answer at `i` is successful.
proof fn lemma_ok_count_prefix(answers: Seq<Result<usize>>, i: int)
    requires
        0 <= i < answers.len(),
        answers[i] is Ok,
    ensures
        ok_count(answers.take(i)) < ok_count(answers),
    decreases answers.len(),
{
    if i < answers.len() - 1 {
        lemma_ok_count_prefix(answers.drop_last(), i);
        assert(answers.drop_last().take(i) =~= answers.take(i));
        assert(answers.drop_last()[i] == answers[i]);
    } else {
        assert(answers.drop_last() =~= answers.take(i));
    }
}

/// The descriptors of a batch's hooks, in batch order.
pub open spec fn batch_descriptors(hooks: Seq<(usize, usize)>) -> Seq<LHFunctionHook> {
    Seq::new(hooks.len(), |i: int| hook_descriptor(hooks[i].0, hooks[i].1))
}

/// The table a batch hands over has one descriptor per hook, in batch order: entry
/// `i` hooks the `i`-th added target with the `i`-th added replacement, with no
/// options and its original slot still to be set.
pub proof fn lemma_batch_descriptors_follow_hooks(hooks: Seq<(usize, usize)>)
    ensures
        batch_descriptors(hooks).len() == hooks.len(),
        forall|i: int|
            0 <= i < hooks.len() ==> (#[trigger] batch_descriptors(hooks)[i]).function == hooks[i].0
                && batch_descriptors(hooks)[i].replacement == hooks[i].1
                && batch_descriptors(hooks)[i].oldptr == 0 && batch_descriptors(hooks)[i].options == 0,
{
}

/// The originals of `count` committed hooks, read from what the installation
/// wrote (`written`); a slot it did not write is null.
pub open spec fn batch_originals(count: nat, written: Seq<usize>) -> Seq<usize> {
    Seq::new(count, |i: int| if i < written.len() { written[i] } else { 0usize })
}

/// Committing a batch of `hooks` keeps one original per hook: an index that `add`
/// answered finds its original, any other index finds none, and the original of a
/// hook is what the installation wrote for it (null where it wrote nothing).
pub proof fn lemma_committed_originals(hooks: Seq<(usize, usize)>, written: Seq<usize>, index: int)
    ensures
        (0 <= index < hooks.len()) <==> (0 <= index < batch_originals(hooks.len(), written).len()),
        0 <= index < hooks.len() && index < written.len() ==> batch_originals(hooks.len(), written)[index]
            == written[index],
        0 <= index < hooks.len() && index >= written.len() ==> batch_originals(hooks.len(), written)[index]
            == 0,
{
}

/// What a committed batch answers: the original address of each of its hooks.
pub struct FunctionHookBatchResult {
    originals: Vec<usize>,
}

impl View for FunctionHookBatchResult {
    type V = Seq<usize>;

    closed spec fn view(&self) -> Seq<usize> {
        self.originals@
    }
}

impl FunctionHookBatchResult {
    /// The original address of the hook at `index` (the index that `add` answered),
    /// or `None` when the batch had no such hook.
    pub fn original(&self, index: usize) -> (r: Option<usize>)
        ensures
            index < self@.len() ==> r == Some(self@[index as int]),
            index >= self@.len() ==> r is None,
    {
        if index < self.originals.len() {
            Some(self.originals[index])
        } else {
            None
        }
    }
}

impl Default for FunctionHookBatch {
    fn default() -> (r: Self)
        ensures
            r@ == Seq::<(usize, usize)>::empty(),
    {
        Self::new()
    }
}

/// The C flag for a boolean: 1 for `true`, 0 for `false`.
pub open spec fn c_flag(b: bool) -> i32 {
    if b { 1 } else { 0 }
}

/// What an operation that answers an address returns once its call answered
/// `answer`: the address, or `on_null` when the call answered the null address.
pub open spec fn address_outcome(r: Result<usize>, answer: usize, on_null: Error) -> bool {
    if answer == 0 {
        r == Err::<usize, Error>(on_null)
    } else {
        r == Ok::<usize, Error>(answer)
    }
}

/// Enable or disable ElleKit's thread safety (suspending the other threads while
/// hooks are installed): `ek_enable_thread_safety` receives 1 to enable, 0 to disable.
pub fn set_thread_safety<F>(enabled: bool, ek_enable_thread_safety: F) where F: FnOnce(i32)
    requires
        call_requires(ek_enable_thread_safety, (c_flag(enabled),)),
    ensures
        call_ensures(ek_enable_thread_safety, (c_flag(enabled),), ()),
{
    let flag: i32 = if enabled { 1 } else { 0 };
    ek_enable_thread_safety(flag)
}

/// Hook `target` with `replacement` through ElleKit's native API;
/// `ek_hook_function(target, replacement, skip)` receives `skip` as 1 when the
/// framework's safety checks are to be skipped, and answers the original address.
pub fn native_hook<F>(target: usize, replacement: usize, skip_checks: bool, ek_hook_function: F) -> (r:
    Result<usize>) where F: FnOnce(usize, usize, i32) -> usize
    requires
        target != 0 && replacement != 0 ==> call_requires(
            ek_hook_function,
            (target, replacement, c_flag(skip_checks)),
        ),
    ensures
        target == 0 || replacement == 0 ==> r == Err::<usize, Error>(Error::NullPointer),
        target != 0 && replacement != 0 ==> exists|original: usize|
            #[trigger] call_ensures(ek_hook_function, (target, replacement, c_flag(skip_checks)), original)
                && address_outcome(r, original, Error::Other("Native hook failed")),
{
    if target == 0 || replacement == 0 {
        return Err(Error::NullPointer);
    }
    let flag: i32 = if skip_checks { 1 } else { 0 };
    let original = ek_hook_function(target, replacement, flag);
    if original == 0 {
        return Err(Error::Other("Native hook failed"));
    }
    Ok(original)
}

/// Hook the single instruction at `target` with `replacement`;
/// `ek_precision_hook(target, replacement)` answers the original address.
pub fn precision_hook<F>(target: usize, replacement: usize, ek_precision_hook: F) -> (r: Result<usize>) where
    F: FnOnce(usize, usize) -> usize,
    requires
        target != 0 && replacement != 0 ==> call_requires(ek_precision_hook, (target, replacement)),
    ensures
        target == 0 || replacement == 0 ==> r == Err::<usize, Error>(Error::NullPointer),
        target != 0 && replacement != 0 ==> exists|original: usize|
            #[trigger] call_ensures(ek_precision_hook, (target, replacement), original) && address_outcome(
                r,
                original,
                Error::Other("Precision hook failed"),
            ),
{
    if target == 0 || replacement == 0 {
        return Err(Error::NullPointer);
    }
    let original = ek_precision_hook(target, replacement);
    if original == 0 {
        return Err(Error::Other("Precision hook failed"));
    }
    Ok(original)
}

} // verus!
