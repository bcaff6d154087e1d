//! Names of the values of an exported function.
//!
//! Every value gets its name before anything is printed, because a PHI may refer
//! to a value that a later block defines. Block arguments and results take the
//! registers `%v0`, `%v1` and so on in order; constants and addresses are written
//! where they are used and name no register.

use crate::export_state::ModuleExportState;
use crate::fx_map::fx_get;
use crate::fx_map::fx_insert;
use crate::ir::blocks_within;
use crate::ir::result_count;
use crate::ir::value_count;
use crate::ir::BlockIr;
use crate::ir::Context;
use crate::ir::ConstAttr;
use crate::ir::OpIr;
use crate::ir::OpKind;
use crate::ir::TypeKind;
use crate::ir::Value;
use crate::text::decimal;
use crate::text::has_prefix;
use crate::text::push_decimal;
use crate::text::replace_char;
use crate::text::starts_with;
use crate::text::strip_prefix;
use crate::text::with_char_replaced;
use rustc_hash::FxHashMap;
use vstd::prelude::*;

verus! {

broadcast use vstd::string::group_string_axioms;

// ---------------------------------------------------------------------------
// Symbols
// ---------------------------------------------------------------------------

/// The prefix of the internal names of device functions.
pub const DEVICE_PREFIX: &'static str = "cuda_oxide_device_";

/// `symbol` without the device prefix.
pub open spec fn without_device_prefix(symbol: Seq<char>) -> Seq<char> {
    if has_prefix(symbol, "cuda_oxide_device_"@) {
        symbol.skip("cuda_oxide_device_"@.len() as int)
    } else {
        symbol
    }
}

/// The name under which a symbol is exported: an intrinsic with dots for
/// underscores, anything else without the device prefix.
pub open spec fn export_name(symbol: Seq<char>) -> Seq<char> {
    if has_prefix(symbol, "llvm_"@) {
        with_char_replaced(symbol, '_', '.')
    } else {
        without_device_prefix(symbol)
    }
}

/// Whether `symbol` has the device prefix.
pub fn has_device_prefix(symbol: &str) -> (r: bool)
    ensures
        r == has_prefix(symbol@, "cuda_oxide_device_"@),
{
    starts_with(symbol, DEVICE_PREFIX)
}

/// `symbol` without the device prefix.
pub fn strip_device_prefix(symbol: &str) -> (r: String)
    ensures
        r@ == without_device_prefix(symbol@),
{
    match strip_prefix(symbol, DEVICE_PREFIX) {
        Some(rest) => rest,
        None => symbol.to_owned(),
    }
}

/// The name under which `symbol` is exported.
pub fn exported_symbol(symbol: &str) -> (r: String)
    ensures
        r@ == export_name(symbol@),
{
    if starts_with(symbol, "llvm_") {
        replace_char(symbol, '_', '.')
    } else {
        strip_device_prefix(symbol)
    }
}

// ---------------------------------------------------------------------------
// Names
// ---------------------------------------------------------------------------

/// The name of a value.
pub enum NameOf {
    /// The register with this number.
    Register(nat),
    /// Written out where it is used.
    Written(Seq<char>),
}

/// How a name is printed.
pub open spec fn name_text(name: NameOf) -> Seq<char> {
    match name {
        NameOf::Register(k) => "%v"@ + decimal(k),
        NameOf::Written(s) => s,
    }
}

/// The names given so far and the next free register.
pub struct Names {
    /// The names, by value identifier.
    pub of: Map<u64, NameOf>,
    /// The next free register.
    pub next: nat,
}

/// The names given so far, and the failure that stopped the naming.
pub struct Naming {
    /// The names given so far.
    pub names: Names,
    /// The message of the failure.
    pub failure: Option<Seq<char>>,
}

/// No names yet.
pub open spec fn no_names() -> Names {
    Names { of: Map::empty(), next: 0 }
}

impl Names {
    /// Gives the value `id` the next register.
    pub open spec fn define(self, id: u64) -> Names {
        Names { of: self.of.insert(id, NameOf::Register(self.next)), next: self.next + 1 }
    }

    /// Writes the value `id` as `text` wherever it is used.
    pub open spec fn write(self, id: u64, text: Seq<char>) -> Names {
        Names { of: self.of.insert(id, NameOf::Written(text)), ..self }
    }

    /// The printed names.
    pub open spec fn texts(self) -> Map<u64, Seq<char>> {
        self.of.map_values(|name: NameOf| name_text(name))
    }
}

/// Gives registers to the values from the `i`-th on.
pub open spec fn define_all(names: Names, values: Seq<Value>, i: nat) -> Names
    decreases values.len() - i,
{
    if i >= values.len() {
        names
    } else {
        define_all(names.define(values[i as int].id), values, i + 1)
    }
}

/// What the naming looks at besides the function.
pub struct NamingEnv {
    /// The types of the module.
    pub ctx: Context,
    /// Whether the module is exported with typed pointers.
    pub legacy: bool,
    /// The address spaces of the globals.
    pub globals: Map<Seq<char>, u32>,
    /// The types of the functions seen so far.
    pub functions: Map<Seq<char>, usize>,
}

impl<'a> ModuleExportState<'a> {
    /// What the naming looks at in a state.
    pub open spec fn env(self) -> NamingEnv {
        NamingEnv {
            ctx: *self.ctx,
            legacy: self.legacy(),
            globals: self.global_symbols@,
            functions: self@.function_types,
        }
    }
}

/// How a constant is written, or why it cannot be.
pub open spec fn const_text(legacy: bool, constant: ConstAttr) -> Result<Seq<char>, Seq<char>> {
    match constant {
        ConstAttr::Integer(n) => Ok(decimal(n.unsigned())),
        ConstAttr::Float { literal } => Ok(literal@),
        ConstAttr::Other { shown } => if legacy {
            Err("legacy LLVM 7 export cannot render constant attribute `"@ + shown@ + "`"@)
        } else {
            Ok("0"@)
        },
    }
}

/// How the address of `symbol` is written as a value of type `ty`, or why it
/// cannot be.
pub open spec fn address_text(
    env: NamingEnv,
    symbol: Seq<char>,
    ty: usize,
) -> Result<Seq<char>, Seq<char>> {
    match env.ctx.kind(ty) {
        TypeKind::Pointer { address_space } => if env.globals.dom().contains(symbol) {
            let home = env.globals[symbol];
            if address_space != home {
                Err(
                    "addressof `@"@ + symbol + "` address-space mismatch: result is "@ + decimal(
                        address_space as nat,
                    ) + ", global is "@ + decimal(home as nat),
                )
            } else {
                Ok("@"@ + symbol)
            }
        } else {
            let function = export_name(symbol);
            if !env.functions.dom().contains(function) {
                Err("addressof references unknown symbol `@"@ + symbol + "`"@)
            } else if address_space != 0 {
                Err(
                    "function addressof `@"@ + function
                        + "` must produce a program-address-space (0) pointer, got address space "@
                        + decimal(address_space as nat),
                )
            } else {
                Ok("@"@ + function)
            }
        },
        _ => Err("addressof result is not a pointer: `"@ + env.ctx.shown(ty) + "`"@),
    }
}

/// Names a value that is written where it is used.
pub open spec fn write_rendered(
    names: Names,
    id: u64,
    rendered: Result<Seq<char>, Seq<char>>,
) -> Naming {
    match rendered {
        Ok(text) => Naming { names: names.write(id, text), failure: None },
        Err(message) => Naming { names, failure: Some(message) },
    }
}

/// Names the results of one operation.
pub open spec fn name_op(names: Names, env: NamingEnv, op: OpIr) -> Naming {
    match op.kind {
        OpKind::Undef => Naming { names, failure: None },
        OpKind::Constant(constant) => write_rendered(
            names,
            op.results@[0].id,
            const_text(env.legacy, constant),
        ),
        OpKind::AddressOf { symbol } => if env.legacy {
            Naming { names: define_all(names, op.results@, 0), failure: None }
        } else {
            write_rendered(
                names,
                op.results@[0].id,
                address_text(env, symbol@, op.results@[0].ty),
            )
        },
        _ => Naming { names: define_all(names, op.results@, 0), failure: None },
    }
}

/// Names the results of the operations from the `i`-th on.
pub open spec fn name_ops(naming: Naming, env: NamingEnv, ops: Seq<OpIr>, i: nat) -> Naming
    decreases ops.len() - i,
{
    if naming.failure is Some || i >= ops.len() {
        naming
    } else {
        name_ops(name_op(naming.names, env, ops[i as int]), env, ops, i + 1)
    }
}

/// Names the values of the blocks from the `b`-th on. The arguments of the entry
/// block are named before.
pub open spec fn name_blocks(
    naming: Naming,
    env: NamingEnv,
    blocks: Seq<BlockIr>,
    b: nat,
) -> Naming
    decreases blocks.len() - b,
{
    if naming.failure is Some || b >= blocks.len() {
        naming
    } else {
        let block = blocks[b as int];
        let named = Naming {
            names: if b == 0 {
                naming.names
            } else {
                define_all(naming.names, block.args@, 0)
            },
            failure: None,
        };
        name_blocks(name_ops(named, env, block.ops@, 0), env, blocks, b + 1)
    }
}

/// The names of all values of a function body.
pub open spec fn function_names(env: NamingEnv, blocks: Seq<BlockIr>) -> Naming {
    name_blocks(
        Naming { names: define_all(no_names(), blocks[0].args@, 0), failure: None },
        env,
        blocks,
        0,
    )
}

// ---------------------------------------------------------------------------
// Laws
// ---------------------------------------------------------------------------

/// Registers below the next free one, each given to one value only.
pub open spec fn registers_distinct(names: Names) -> bool {
    &&& forall|id: u64|
        names.of.dom().contains(id) ==> (#[trigger] names.of[id] matches NameOf::Register(k)
            ==> k < names.next)
    &&& forall|a: u64, b: u64|
        names.of.dom().contains(a) && names.of.dom().contains(b) && a != b ==> (
        #[trigger] names.of[a] matches NameOf::Register(k) ==> #[trigger] names.of[b]
            != NameOf::Register(k))
}

proof fn lemma_define_all_distinct(names: Names, values: Seq<Value>, i: nat)
    requires
        registers_distinct(names),
    ensures
        registers_distinct(define_all(names, values, i)),
    decreases values.len() - i,
{
    if i < values.len() {
        lemma_define_all_distinct(names.define(values[i as int].id), values, i + 1);
    }
}

proof fn lemma_name_ops_distinct(naming: Naming, env: NamingEnv, ops: Seq<OpIr>, i: nat)
    requires
        registers_distinct(naming.names),
    ensures
        registers_distinct(name_ops(naming, env, ops, i).names),
    decreases ops.len() - i,
{
    if naming.failure is None && i < ops.len() {
        let op = ops[i as int];
        lemma_define_all_distinct(naming.names, op.results@, 0);
        lemma_name_ops_distinct(name_op(naming.names, env, op), env, ops, i + 1);
    }
}

proof fn lemma_name_blocks_distinct(
    naming: Naming,
    env: NamingEnv,
    blocks: Seq<BlockIr>,
    b: nat,
)
    requires
        registers_distinct(naming.names),
    ensures
        registers_distinct(name_blocks(naming, env, blocks, b).names),
    decreases blocks.len() - b,
{
    if naming.failure is None && b < blocks.len() {
        let block = blocks[b as int];
        lemma_define_all_distinct(naming.names, block.args@, 0);
        let named = Naming {
            names: if b == 0 {
                naming.names
            } else {
                define_all(naming.names, block.args@, 0)
            },
            failure: None,
        };
        lemma_name_ops_distinct(named, env, block.ops@, 0);
        lemma_name_blocks_distinct(
            name_ops(named, env, block.ops@, 0),
            env,
            blocks,
            b + 1,
        );
    }
}

/// No two values of a function share a register.
pub proof fn values_have_registers_of_their_own(env: NamingEnv, blocks: Seq<BlockIr>)
    requires
        blocks.len() > 0,
    ensures
        registers_distinct(function_names(env, blocks).names),
{
    lemma_define_all_distinct(no_names(), blocks[0].args@, 0);
    lemma_name_blocks_distinct(
        Naming { names: define_all(no_names(), blocks[0].args@, 0), failure: None },
        env,
        blocks,
        0,
    );
}

/// Every value of `values` has a name.
pub open spec fn all_named(names: Map<u64, NameOf>, values: Seq<Value>) -> bool {
    forall|i: int| 0 <= i < values.len() ==> names.dom().contains((#[trigger] values[i]).id)
}

/// The results of `op` that are used by name have one: the first result of a
/// constant or an address, all results of other operations, and none of an
/// undefined value.
pub open spec fn op_named(names: Map<u64, NameOf>, op: OpIr) -> bool {
    match op.kind {
        OpKind::Undef => true,
        OpKind::Constant(_) => names.dom().contains(op.results@[0].id),
        OpKind::AddressOf { symbol } => op.results@.len() > 0 ==> names.dom().contains(
            op.results@[0].id,
        ),
        _ => all_named(names, op.results@),
    }
}

/// `later` names every value that `earlier` names.
pub open spec fn names_more(earlier: Map<u64, NameOf>, later: Map<u64, NameOf>) -> bool {
    forall|id: u64| #[trigger] earlier.dom().contains(id) ==> later.dom().contains(id)
}

proof fn lemma_define_all_names(names: Names, values: Seq<Value>, i: nat)
    ensures
        names_more(names.of, define_all(names, values, i).of),
        forall|k: int|
            i <= k < values.len() ==> define_all(names, values, i).of.dom().contains(
                (#[trigger] values[k]).id,
            ),
    decreases values.len() - i,
{
    if i < values.len() {
        let one = names.define(values[i as int].id);
        lemma_define_all_names(one, values, i + 1);
        assert(one.of.dom().contains(values[i as int].id));
        assert forall|id: u64| #[trigger] names.of.dom().contains(id) implies define_all(
            names,
            values,
            i,
        ).of.dom().contains(id) by {
            assert(one.of.dom().contains(id));
        }
    }
}

proof fn lemma_name_op_names(names: Names, env: NamingEnv, op: OpIr)
    ensures
        names_more(names.of, name_op(names, env, op).names.of),
        name_op(names, env, op).failure is None ==> op_named(name_op(names, env, op).names.of, op),
{
    lemma_define_all_names(names, op.results@, 0);
}

proof fn lemma_op_named_later(earlier: Map<u64, NameOf>, later: Map<u64, NameOf>, op: OpIr)
    requires
        names_more(earlier, later),
        op_named(earlier, op),
    ensures
        op_named(later, op),
{
    if op.results@.len() > 0 {
        assert(earlier.dom().contains(op.results@[0].id) ==> later.dom().contains(
            op.results@[0].id,
        ));
    }
    if all_named(earlier, op.results@) {
        assert forall|i: int| 0 <= i < op.results@.len() implies later.dom().contains(
            (#[trigger] op.results@[i]).id,
        ) by {
            assert(earlier.dom().contains(op.results@[i].id));
        }
    }
}

proof fn lemma_name_ops_names(naming: Naming, env: NamingEnv, ops: Seq<OpIr>, i: nat)
    ensures
        names_more(naming.names.of, name_ops(naming, env, ops, i).names.of),
        name_ops(naming, env, ops, i).failure is None ==> (forall|k: int|
            i <= k < ops.len() ==> op_named(
                name_ops(naming, env, ops, i).names.of,
                #[trigger] ops[k],
            )),
    decreases ops.len() - i,
{
    if naming.failure is None && i < ops.len() {
        let op = ops[i as int];
        let one = name_op(naming.names, env, op);
        lemma_name_op_names(naming.names, env, op);
        lemma_name_ops_names(one, env, ops, i + 1);
        let end = name_ops(one, env, ops, i + 1);
        assert(name_ops(naming, env, ops, i) == end);
        assert forall|id: u64| #[trigger] naming.names.of.dom().contains(
            id,
        ) implies end.names.of.dom().contains(id) by {
            assert(one.names.of.dom().contains(id));
        }
        if end.failure is None {
            assert(one.failure is None);
            lemma_op_named_later(one.names.of, end.names.of, op);
        }
    }
}

proof fn lemma_all_named_later(
    earlier: Map<u64, NameOf>,
    later: Map<u64, NameOf>,
    values: Seq<Value>,
)
    requires
        names_more(earlier, later),
        all_named(earlier, values),
    ensures
        all_named(later, values),
{
    assert forall|i: int| 0 <= i < values.len() implies later.dom().contains(
        (#[trigger] values[i]).id,
    ) by {
        assert(earlier.dom().contains(values[i].id));
    }
}

/// Every argument of the block is named and so is every result that is used by
/// name.
pub open spec fn block_named(names: Map<u64, NameOf>, block: BlockIr) -> bool {
    &&& all_named(names, block.args@)
    &&& forall|k: int| 0 <= k < block.ops@.len() ==> op_named(names, #[trigger] block.ops@[k])
}

proof fn lemma_name_blocks_names(naming: Naming, env: NamingEnv, blocks: Seq<BlockIr>, b: nat)
    requires
        b == 0 && blocks.len() > 0 ==> all_named(naming.names.of, blocks[0].args@),
    ensures
        names_more(naming.names.of, name_blocks(naming, env, blocks, b).names.of),
        name_blocks(naming, env, blocks, b).failure is None ==> (forall|k: int|
            b <= k < blocks.len() ==> block_named(
                name_blocks(naming, env, blocks, b).names.of,
                #[trigger] blocks[k],
            )),
    decreases blocks.len() - b,
{
    if naming.failure is None && b < blocks.len() {
        let block = blocks[b as int];
        lemma_define_all_names(naming.names, block.args@, 0);
        let named = Naming {
            names: if b == 0 {
                naming.names
            } else {
                define_all(naming.names, block.args@, 0)
            },
            failure: None,
        };
        let one = name_ops(named, env, block.ops@, 0);
        lemma_name_ops_names(named, env, block.ops@, 0);
        lemma_name_blocks_names(one, env, blocks, b + 1);
        let end = name_blocks(one, env, blocks, b + 1);
        assert(name_blocks(naming, env, blocks, b) == end);
        assert forall|id: u64| #[trigger] naming.names.of.dom().contains(
            id,
        ) implies end.names.of.dom().contains(id) by {
            assert(named.names.of.dom().contains(id));
            assert(one.names.of.dom().contains(id));
        }
        if end.failure is None {
            assert(one.failure is None);
            lemma_all_named_later(named.names.of, one.names.of, block.args@);
            lemma_all_named_later(one.names.of, end.names.of, block.args@);
            assert forall|k: int| 0 <= k < block.ops@.len() implies op_named(
                end.names.of,
                #[trigger] block.ops@[k],
            ) by {
                lemma_op_named_later(one.names.of, end.names.of, block.ops@[k]);
            }
        }
    }
}

/// Once naming succeeds, every value of every block has a name, also where it is
/// used before the block that defines it is printed.
pub proof fn every_value_has_a_name(env: NamingEnv, blocks: Seq<BlockIr>, b: int)
    requires
        function_names(env, blocks).failure is None,
        0 <= b < blocks.len(),
    ensures
        block_named(function_names(env, blocks).names.of, blocks[b]),
{
    let entry = define_all(no_names(), blocks[0].args@, 0);
    lemma_define_all_names(no_names(), blocks[0].args@, 0);
    lemma_name_blocks_names(Naming { names: entry, failure: None }, env, blocks, 0);
}

/// Registers with different numbers are printed differently.
pub proof fn registers_print_differently(a: nat, b: nat)
    requires
        a != b,
    ensures
        name_text(NameOf::Register(a)) != name_text(NameOf::Register(b)),
{
    let prefix = "%v"@;
    let left = prefix + decimal(a);
    let right = prefix + decimal(b);
    if left == right {
        assert(left.skip(prefix.len() as int) == decimal(a));
        assert(right.skip(prefix.len() as int) == decimal(b));
        crate::text::lemma_decimal_injective(a, b);
    }
}

// ---------------------------------------------------------------------------
// Naming
// ---------------------------------------------------------------------------

/// A map of strings with its strings viewed.
pub open spec fn strings_of(m: Map<u64, String>) -> Map<u64, Seq<char>> {
    m.map_values(|s: String| s@)
}

/// Gives the value `id` the next register and returns its name.
pub(crate) fn define_value(
    value_names: &mut FxHashMap<u64, String>,
    next_value_id: &mut u64,
    id: u64,
) -> (name: String)
    requires
        *old(next_value_id) < u64::MAX,
    ensures
        *final(next_value_id) == *old(next_value_id) + 1,
        name@ == name_text(NameOf::Register(*old(next_value_id) as nat)),
        strings_of(final(value_names)@) == strings_of(old(value_names)@).insert(id, name@),
{
    let mut name = "%v".to_owned();
    push_decimal(&mut name, *next_value_id);
    fx_insert(value_names, id, name.clone());
    *next_value_id = *next_value_id + 1;
    assert(strings_of(value_names@) =~= strings_of(old(value_names)@).insert(id, name@));
    name
}

/// The maps that print `names` and hold its next free register.
pub open spec fn prints(m: Map<u64, String>, next: u64, names: Names) -> bool {
    strings_of(m) == names.texts() && next == names.next
}

fn define_values(
    value_names: &mut FxHashMap<u64, String>,
    next_value_id: &mut u64,
    values: &Vec<Value>,
    Ghost(names): Ghost<Names>,
)
    requires
        *old(next_value_id) + values@.len() <= u64::MAX,
        prints(old(value_names)@, *old(next_value_id), names),
    ensures
        prints(final(value_names)@, *final(next_value_id), define_all(names, values@, 0)),
        *final(next_value_id) == *old(next_value_id) + values@.len(),
{
    let mut i: usize = 0;
    let ghost mut now = names;
    while i < values.len()
        invariant
            i <= values.len(),
            *next_value_id == *old(next_value_id) + i,
            *old(next_value_id) + values@.len() <= u64::MAX,
            prints(value_names@, *next_value_id, now),
            define_all(names, values@, 0) == define_all(now, values@, i as nat),
        decreases values.len() - i,
    {
        let ghost before = now;
        let name = define_value(value_names, next_value_id, values[i].id);
        proof {
            now = now.define(values@[i as int].id);
            assert(now.texts() =~= before.texts().insert(values@[i as int].id, name@));
        }
        i += 1;
    }
}

/// Writes the value `id` as `text` wherever it is used.
fn write_value(
    value_names: &mut FxHashMap<u64, String>,
    id: u64,
    text: String,
    Ghost(names): Ghost<Names>,
    Ghost(next): Ghost<u64>,
)
    requires
        prints(old(value_names)@, next, names),
    ensures
        prints(final(value_names)@, next, names.write(id, text@)),
{
    fx_insert(value_names, id, text);
    assert(strings_of(value_names@) =~= strings_of(old(value_names)@).insert(id, text@));
    assert(names.write(id, text@).texts() =~= names.texts().insert(id, text@));
}

fn render_constant(state: &ModuleExportState, constant: &ConstAttr) -> (r: Result<String, String>)
    requires
        constant matches ConstAttr::Integer(n) ==> n.wf(),
    ensures
        crate::emission::rendered(r) == const_text(state.legacy(), *constant),
{
    match constant {
        ConstAttr::Integer(n) => Ok(n.to_string_unsigned_decimal()),
        ConstAttr::Float { literal } => Ok(literal.clone()),
        ConstAttr::Other { shown } => {
            if state.legacy_typed_pointers() {
                let mut message =
                    "legacy LLVM 7 export cannot render constant attribute `".to_owned();
                message.append(shown.as_str());
                message.append("`");
                Err(message)
            } else {
                Ok("0".to_owned())
            }
        },
    }
}

fn render_address(state: &ModuleExportState, symbol: &str, ty: usize) -> (r: Result<String, String>)
    requires
        state.ctx.has(ty),
    ensures
        crate::emission::rendered(r) == address_text(state.env(), symbol@, ty),
{
    let address_space: u32 = match &state.ctx.types[ty].kind {
        TypeKind::Pointer { address_space } => *address_space,
        _ => {
            let mut message = "addressof result is not a pointer: `".to_owned();
            message.append(state.ctx.types[ty].shown.as_str());
            message.append("`");
            return Err(message);
        },
    };
    match state.global_symbols.get(symbol) {
        Some(home) => {
            if address_space != home {
                let mut message = "addressof `@".to_owned();
                message.append(symbol);
                message.append("` address-space mismatch: result is ");
                push_decimal(&mut message, address_space as u64);
                message.append(", global is ");
                push_decimal(&mut message, home as u64);
                return Err(message);
            }
            let mut text = "@".to_owned();
            text.append(symbol);
            Ok(text)
        },
        None => {
            let function = exported_symbol(symbol);
            if state.function_types.get(function.as_str()).is_none() {
                let mut message = "addressof references unknown symbol `@".to_owned();
                message.append(symbol);
                message.append("`");
                return Err(message);
            }
            if address_space != 0 {
                let mut message = "function addressof `@".to_owned();
                message.append(function.as_str());
                message.append(
                    "` must produce a program-address-space (0) pointer, got address space ",
                );
                push_decimal(&mut message, address_space as u64);
                return Err(message);
            }
            let mut text = "@".to_owned();
            text.append(function.as_str());
            Ok(text)
        },
    }
}

/// The names that an operation leaves, and the result of naming it.
spec fn named_op(
    m: Map<u64, String>,
    next: u64,
    r: Result<(), String>,
    naming: Naming,
) -> bool {
    match r {
        Ok(_) => naming.failure is None && prints(m, next, naming.names),
        Err(message) => naming.failure == Some(message@),
    }
}

fn name_operation(
    state: &ModuleExportState,
    op: &OpIr,
    value_names: &mut FxHashMap<u64, String>,
    next_value_id: &mut u64,
    Ghost(names): Ghost<Names>,
    Ghost(blocks): Ghost<nat>,
) -> (r: Result<(), String>)
    requires
        op.within(*state.ctx, blocks),
        prints(old(value_names)@, *old(next_value_id), names),
        *old(next_value_id) + op.results@.len() <= u64::MAX,
    ensures
        named_op(final(value_names)@, *final(next_value_id), r, name_op(names, state.env(), *op)),
        *final(next_value_id) <= *old(next_value_id) + op.results@.len(),
{
    match &op.kind {
        OpKind::Undef => {},
        OpKind::Constant(constant) => {
            match render_constant(state, constant) {
                Ok(text) => {
                    write_value(
                        value_names,
                        op.results[0].id,
                        text,
                        Ghost(names),
                        Ghost(*next_value_id),
                    );
                },
                Err(message) => {
                    return Err(message);
                },
            }
        },
        OpKind::AddressOf { symbol } => {
            if state.legacy_typed_pointers() {
                define_values(value_names, next_value_id, &op.results, Ghost(names));
            } else {
                match render_address(state, symbol.as_str(), op.results[0].ty) {
                    Ok(text) => {
                        write_value(
                            value_names,
                            op.results[0].id,
                            text,
                            Ghost(names),
                            Ghost(*next_value_id),
                        );
                    },
                    Err(message) => {
                        return Err(message);
                    },
                }
            }
        },
        _ => {
            define_values(value_names, next_value_id, &op.results, Ghost(names));
        },
    }
    Ok(())
}

proof fn lemma_result_count_step(ops: Seq<OpIr>, i: int)
    requires
        0 <= i < ops.len(),
    ensures
        result_count(ops.take(i + 1)) == result_count(ops.take(i)) + ops[i].results@.len(),
        result_count(ops.take(i + 1)) <= result_count(ops),
    decreases ops.len() - i,
{
    assert(ops.take(i + 1).drop_last() == ops.take(i));
    assert(ops.take(i + 1).last() == ops[i]);
    if i + 1 < ops.len() {
        lemma_result_count_step(ops, i + 1);
    } else {
        assert(ops.take(i + 1) == ops);
    }
}

proof fn lemma_value_count_step(blocks: Seq<BlockIr>, b: int)
    requires
        0 <= b < blocks.len(),
    ensures
        value_count(blocks.take(b + 1)) == value_count(blocks.take(b)) + blocks[b].args@.len()
            + result_count(blocks[b].ops@),
        value_count(blocks.take(b + 1)) <= value_count(blocks),
    decreases blocks.len() - b,
{
    assert(blocks.take(b + 1).drop_last() == blocks.take(b));
    assert(blocks.take(b + 1).last() == blocks[b]);
    if b + 1 < blocks.len() {
        lemma_value_count_step(blocks, b + 1);
    } else {
        assert(blocks.take(b + 1) == blocks);
    }
}

fn name_operations(
    state: &ModuleExportState,
    ops: &Vec<OpIr>,
    value_names: &mut FxHashMap<u64, String>,
    next_value_id: &mut u64,
    Ghost(names): Ghost<Names>,
    Ghost(blocks): Ghost<nat>,
) -> (r: Result<(), String>)
    requires
        forall|i: int|
            0 <= i < ops@.len() ==> (#[trigger] ops@[i]).within(*state.ctx, blocks),
        prints(old(value_names)@, *old(next_value_id), names),
        *old(next_value_id) + result_count(ops@) <= u64::MAX,
    ensures
        named_op(
            final(value_names)@,
            *final(next_value_id),
            r,
            name_ops(Naming { names, failure: None }, state.env(), ops@, 0),
        ),
        *final(next_value_id) <= *old(next_value_id) + result_count(ops@),
{
    let mut i: usize = 0;
    let ghost mut now = names;
    let ghost begun = Naming { names, failure: None };
    assert(ops@.take(0) =~= Seq::<OpIr>::empty());
    while i < ops.len()
        invariant
            i <= ops.len(),
            begun == (Naming { names, failure: None }),
            forall|i: int|
                0 <= i < ops@.len() ==> (#[trigger] ops@[i]).within(*state.ctx, blocks),
            prints(value_names@, *next_value_id, now),
            *old(next_value_id) + result_count(ops@) <= u64::MAX,
            *next_value_id <= *old(next_value_id) + result_count(ops@.take(i as int)),
            name_ops(begun, state.env(), ops@, 0) == name_ops(
                Naming { names: now, failure: None },
                state.env(),
                ops@,
                i as nat,
            ),
            result_count(ops@.take(i as int)) <= result_count(ops@),
        decreases ops.len() - i,
    {
        proof {
            lemma_result_count_step(ops@, i as int);
        }
        if let Err(message) = name_operation(
            state,
            &ops[i],
            value_names,
            next_value_id,
            Ghost(now),
            Ghost(blocks),
        ) {
            proof {
                let failed = name_op(now, state.env(), ops@[i as int]);
                assert(name_ops(failed, state.env(), ops@, (i + 1) as nat) == failed);
            }
            return Err(message);
        }
        proof {
            now = name_op(now, state.env(), ops@[i as int]).names;
        }
        i += 1;
    }
    assert(ops@.take(i as int) =~= ops@);
    Ok(())
}

/// Names every value of a function body whose entry arguments are named already.
pub(crate) fn name_values(
    state: &ModuleExportState,
    blocks: &Vec<BlockIr>,
    value_names: &mut FxHashMap<u64, String>,
    next_value_id: &mut u64,
) -> (r: Result<(), String>)
    requires
        blocks@.len() > 0,
        blocks_within(*state.ctx, blocks@),
        value_count(blocks@) <= u64::MAX,
        prints(
            old(value_names)@,
            *old(next_value_id),
            define_all(no_names(), blocks@[0].args@, 0),
        ),
        *old(next_value_id) == blocks@[0].args@.len(),
    ensures
        named_values(final(value_names)@, *final(next_value_id), r, state.env(), blocks@),
{
    let ghost entry = define_all(no_names(), blocks@[0].args@, 0);
    let ghost begun = Naming { names: entry, failure: None };
    let ghost mut now = entry;
    let mut b: usize = 0;
    assert(blocks@.take(0) =~= Seq::<BlockIr>::empty());
    while b < blocks.len()
        invariant
            b <= blocks.len(),
            begun == (Naming { names: entry, failure: None }),
            entry == define_all(no_names(), blocks@[0].args@, 0),
            blocks_within(*state.ctx, blocks@),
            value_count(blocks@) <= u64::MAX,
            prints(value_names@, *next_value_id, now),
            *next_value_id <= value_count(blocks@.take(b as int)) + (if b == 0 {
                blocks@[0].args@.len()
            } else {
                0
            }),
            name_blocks(begun, state.env(), blocks@, 0) == name_blocks(
                Naming { names: now, failure: None },
                state.env(),
                blocks@,
                b as nat,
            ),
        decreases blocks.len() - b,
    {
        let ghost before = now;
        proof {
            lemma_value_count_step(blocks@, b as int);
        }
        if b > 0 {
            define_values(value_names, next_value_id, &blocks[b].args, Ghost(now));
            proof {
                now = define_all(now, blocks@[b as int].args@, 0);
            }
        }
        let ghost named = Naming { names: now, failure: None };
        if let Err(message) = name_operations(
            state,
            &blocks[b].ops,
            value_names,
            next_value_id,
            Ghost(now),
            Ghost(blocks@.len()),
        ) {
            proof {
                let failed = name_ops(named, state.env(), blocks@[b as int].ops@, 0);
                assert(name_blocks(failed, state.env(), blocks@, (b + 1) as nat) == failed);
            }
            return Err(message);
        }
        proof {
            now = name_ops(named, state.env(), blocks@[b as int].ops@, 0).names;
        }
        b += 1;
    }
    Ok(())
}

/// The names that [`name_values`] leaves, and its result.
pub open spec fn named_values(
    m: Map<u64, String>,
    next: u64,
    r: Result<(), String>,
    env: NamingEnv,
    blocks: Seq<BlockIr>,
) -> bool {
    let naming = function_names(env, blocks);
    match r {
        Ok(_) => naming.failure is None && prints(m, next, naming.names),
        Err(message) => naming.failure == Some(message@),
    }
}

/// How a value is printed: by its name, or as undefined where it has none.
pub open spec fn value_text(texts: Map<u64, Seq<char>>, value: Value) -> Seq<char> {
    if texts.dom().contains(value.id) {
        texts[value.id]
    } else {
        "undef"@
    }
}

/// Prints a value.
pub fn export_value(value: Value, value_names: &FxHashMap<u64, String>, output: &mut String)
    ensures
        final(output)@ == old(output)@ + value_text(strings_of(value_names@), value),
{
    match fx_get(value_names, value.id) {
        Some(name) => output.append(name.as_str()),
        None => output.append("undef"),
    }
}

}
