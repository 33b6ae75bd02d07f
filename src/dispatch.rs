use vstd::prelude::*;

verus! {

/// The sum of `a` and `b` taken modulo 2^32 and read back as a signed 32-bit value.
pub open spec fn wrapped_sum(a: i32, b: i32) -> i32 {
    let s = a as int + b as int;
    if s > i32::MAX {
        (s - 0x1_0000_0000) as i32
    } else if s < i32::MIN {
        (s + 0x1_0000_0000) as i32
    } else {
        s as i32
    }
}

/// Adds two numbers with two's-complement wraparound: overflow is no error.
pub fn add(a: i32, b: i32) -> (r: i32)
    ensures
        r == wrapped_sum(a, b),
        i32::MIN <= a + b <= i32::MAX ==> r == a + b,
{
    a.wrapping_add(b)
}

/// A request to run one operation: its name and its integer arguments.
#[derive(Debug, PartialEq)]
pub struct EnclaveInput {
    pub operation: String,
    pub parameters: Vec<i32>,
}

/// The answer to a request: `result` means something only when `status` is `SUCCESS`.
#[derive(Debug, PartialEq)]
pub struct EnclaveOutput {
    pub result: i32,
    pub status: String,
}

/// Why a request could not be run.
#[derive(Debug, PartialEq)]
pub enum OperationError {
    /// The operation is known but was given the wrong number of arguments.
    WrongArity,
    /// No operation of this name exists; the name is kept as it was given.
    Unsupported(String),
}

/// The name under which addition is offered. Names match exactly, case included.
pub open spec fn add_name() -> Seq<char> {
    "add"@
}

/// The status of a request that ran.
pub open spec fn success_status() -> Seq<char> {
    "SUCCESS"@
}

/// The prefix that every failure status starts with.
pub open spec fn error_prefix() -> Seq<char> {
    "ERROR"@
}

/// The status of an addition request without exactly two arguments.
pub open spec fn arity_message() -> Seq<char> {
    "ERROR: add operation requires exactly 2 parameters"@
}

/// The status of a request whose operation name `op` is not offered.
pub open spec fn unsupported_message(op: Seq<char>) -> Seq<char> {
    "ERROR: Unsupported operation '"@ + op + "'"@
}

/// The response owed to a request with operation name `op` and arguments `params`,
/// as a pair of result and status text.
pub open spec fn response_of(op: Seq<char>, params: Seq<i32>) -> (i32, Seq<char>) {
    if op == add_name() {
        if params.len() == 2 {
            (wrapped_sum(params[0], params[1]), success_status())
        } else {
            (0, arity_message())
        }
    } else {
        (0, unsupported_message(op))
    }
}

impl OperationError {
    /// The status line that reports this error.
    pub open spec fn spec_message(&self) -> Seq<char> {
        match self {
            OperationError::WrongArity => arity_message(),
            OperationError::Unsupported(name) => unsupported_message(name@),
        }
    }

    /// The status line that reports this error.
    pub fn message(&self) -> (r: String)
        ensures
            r@ == self.spec_message(),
    {
        match self {
            OperationError::WrongArity => {
                String::from_str("ERROR: add operation requires exactly 2 parameters")
            },
            OperationError::Unsupported(name) => {
                let mut s = String::from_str("ERROR: Unsupported operation '");
                s.append(name.as_str());
                s.append("'");
                s
            },
        }
    }
}

/// Runs the operation that `input` names, or says why it cannot be run.
pub fn execute(input: &EnclaveInput) -> (r: Result<i32, OperationError>)
    ensures
        match r {
            Ok(v) => {
                &&& input.operation@ == add_name()
                &&& input.parameters@.len() == 2
                &&& v == wrapped_sum(input.parameters@[0], input.parameters@[1])
            },
            Err(OperationError::WrongArity) => {
                input.operation@ == add_name() && input.parameters@.len() != 2
            },
            Err(OperationError::Unsupported(name)) => {
                input.operation@ != add_name() && name@ == input.operation@
            },
        },
{
    let add_op = String::from_str("add");
    if input.operation == add_op {
        if input.parameters.len() != 2 {
            return Err(OperationError::WrongArity);
        }
        Ok(crate::dispatch::add(input.parameters[0], input.parameters[1]))
    } else {
        Err(OperationError::Unsupported(input.operation.clone()))
    }
}

/// Dispatches a request and reports the outcome in the status line: `SUCCESS`
/// with the computed result, or an `ERROR` message with result 0.
pub fn process_operation(input: EnclaveInput) -> (r: EnclaveOutput)
    ensures
        (r.result, r.status@) == response_of(input.operation@, input.parameters@),
        input.operation@ == add_name() && input.parameters@.len() == 2 ==> {
            &&& r.result == wrapped_sum(input.parameters@[0], input.parameters@[1])
            &&& r.status@ == success_status()
        },
        input.operation@ == add_name() && input.parameters@.len() != 2 ==> {
            r.result == 0 && r.status@ == arity_message()
        },
        input.operation@ != add_name() ==> {
            r.result == 0 && r.status@ == unsupported_message(input.operation@)
        },
        r.status@ != success_status() ==> {
            r.result == 0 && error_prefix().is_prefix_of(r.status@)
        },
{
    proof {
        lemma_failure_statuses_are_errors(input.operation@);
    }
    match execute(&input) {
        Ok(v) => EnclaveOutput { result: v, status: String::from_str("SUCCESS") },
        Err(e) => EnclaveOutput { result: 0, status: e.message() },
    }
}

/// Both failure messages start with `ERROR`, and neither reads `SUCCESS`.
pub proof fn lemma_failure_statuses_are_errors(op: Seq<char>)
    ensures
        error_prefix().is_prefix_of(arity_message()),
        error_prefix().is_prefix_of(unsupported_message(op)),
        arity_message() != success_status(),
        unsupported_message(op) != success_status(),
{
    reveal_strlit("ERROR");
    reveal_strlit("SUCCESS");
    reveal_strlit("ERROR: add operation requires exactly 2 parameters");
    reveal_strlit("ERROR: Unsupported operation '");
    reveal_strlit("'");
    let m = unsupported_message(op);
    assert(m[0] == 'E');
    assert(arity_message()[0] == 'E');
    assert(error_prefix() =~= m.subrange(0, 5));
    assert(error_prefix() =~= arity_message().subrange(0, 5));
}

/// Dispatch keeps no state between calls: two requests with the same operation
/// name and the same arguments are answered with the same result and status.
pub proof fn lemma_dispatch_deterministic(
    first: EnclaveInput,
    second: EnclaveInput,
    first_out: EnclaveOutput,
    second_out: EnclaveOutput,
)
    requires
        first.operation@ == second.operation@,
        first.parameters@ == second.parameters@,
        (first_out.result, first_out.status@) == response_of(first.operation@, first.parameters@),
        (second_out.result, second_out.status@) == response_of(
            second.operation@,
            second.parameters@,
        ),
    ensures
        first_out.result == second_out.result,
        first_out.status@ == second_out.status@,
{
}

} // verus!
