//! Global variables and their initializers.

use crate::emission::after;
use crate::emission::outcome;
use crate::emission::Emission;
use crate::export_state::ModuleExportState;
use crate::ir::Context;
use crate::ir::GlobalIr;
use crate::ir::TypeKind;
use crate::text::decimal;
use crate::text::hex_byte;
use crate::text::push_decimal;
use crate::text::push_hex_byte;
use vstd::prelude::*;
use vstd::utf8::encode_utf8;

verus! {

broadcast use vstd::string::group_string_axioms;

/// How `{:?}` shows a character.
pub uninterp spec fn char_debug(c: char) -> Seq<char>;

/// `format!("{:?}", c)`: the debug form of a character, which depends on the
/// character alone. Which characters are escaped, and how, is left unsaid.
#[verifier::external_body]
fn debug_char(c: char) -> (s: String)
    ensures
        s@ == char_debug(c),
{
    format!("{:?}", c)
}

/// The value of a hexadecimal digit in either case.
pub open spec fn hex_value(byte: u8) -> Option<u8> {
    if 48 <= byte <= 57 {
        Some((byte - 48) as u8)
    } else if 97 <= byte <= 102 {
        Some((byte - 87) as u8)
    } else if 65 <= byte <= 70 {
        Some((byte - 55) as u8)
    } else {
        None
    }
}

/// The message for a byte that is no hexadecimal digit.
pub open spec fn invalid_digit_message(byte: u8) -> Seq<char> {
    "invalid hex digit "@ + char_debug(byte as char)
}

/// The value of a hexadecimal digit.
pub fn hex_nibble(byte: u8) -> (r: Result<u8, String>)
    ensures
        match r {
            Ok(value) => hex_value(byte) == Some(value),
            Err(message) => hex_value(byte) is None && message@ == invalid_digit_message(byte),
        },
        r matches Ok(value) ==> value < 16,
{
    if 48 <= byte && byte <= 57 {
        Ok(byte - 48)
    } else if 97 <= byte && byte <= 102 {
        Ok(byte - 87)
    } else if 65 <= byte && byte <= 70 {
        Ok(byte - 55)
    } else {
        let mut message = "invalid hex digit ".to_owned();
        let shown = debug_char(byte as char);
        message.append(shown.as_str());
        Err(message)
    }
}

/// `done`, followed by the bytes that the digits of `hex` from `i` on spell in
/// pairs; or the message for the first byte that is no digit.
pub open spec fn decoded_from(hex: Seq<u8>, i: nat, done: Seq<u8>) -> Result<Seq<u8>, Seq<char>>
    decreases hex.len() - i,
{
    if i + 1 >= hex.len() {
        Ok(done)
    } else {
        match (hex_value(hex[i as int]), hex_value(hex[i as int + 1])) {
            (None, _) => Err(invalid_digit_message(hex[i as int])),
            (_, None) => Err(invalid_digit_message(hex[i as int + 1])),
            (Some(hi), Some(lo)) => decoded_from(hex, i + 2, done.push((hi * 16 + lo) as u8)),
        }
    }
}

/// The bytes that a hexadecimal text spells in pairs of digits.
pub open spec fn decoded(hex: Seq<u8>) -> Result<Seq<u8>, Seq<char>> {
    if hex.len() % 2 != 0 {
        Err("global initializer hex string has odd length"@)
    } else {
        decoded_from(hex, 0, seq![])
    }
}

/// Decodes a hexadecimal initializer.
pub fn decode_hex_initializer(hex: &str) -> (r: Result<Vec<u8>, String>)
    ensures
        match r {
            Ok(bytes) => decoded(encode_utf8(hex@)) == Ok::<Seq<u8>, Seq<char>>(bytes@),
            Err(message) => decoded(encode_utf8(hex@)) == Err::<Seq<u8>, Seq<char>>(message@),
        },
{
    let digits = hex.as_bytes();
    if digits.len() % 2 != 0 {
        return Err("global initializer hex string has odd length".to_owned());
    }
    let mut bytes: Vec<u8> = Vec::new();
    let mut i: usize = 0;
    while i < digits.len()
        invariant
            i <= digits.len(),
            i % 2 == 0,
            digits@.len() % 2 == 0,
            digits@ == encode_utf8(hex@),
            decoded(digits@) == decoded_from(digits@, i as nat, bytes@),
        decreases digits.len() - i,
    {
        let hi: u8 = match hex_nibble(digits[i]) {
            Ok(value) => value,
            Err(message) => {
                return Err(message);
            },
        };
        let lo: u8 = match hex_nibble(digits[i + 1]) {
            Ok(value) => value,
            Err(message) => {
                return Err(message);
            },
        };
        bytes.push(hi * 16 + lo);
        i += 2;
    }
    Ok(bytes)
}

/// The bytes of `data` spelled as pairs of hexadecimal digits, in lower or upper
/// case.
pub open spec fn spelled(data: Seq<u8>, upper: bool) -> Seq<u8>
    decreases data.len(),
{
    if data.len() == 0 {
        seq![]
    } else {
        spelled(data.drop_last(), upper) + seq![
            spelled_digit((data.last() / 16) as u8, upper),
            spelled_digit((data.last() % 16) as u8, upper),
        ]
    }
}

/// A hexadecimal digit in ASCII.
pub open spec fn spelled_digit(d: u8, upper: bool) -> u8 {
    if d < 10 {
        (d + 48) as u8
    } else if upper {
        (d + 55) as u8
    } else {
        (d + 87) as u8
    }
}

proof fn lemma_spelled_len(data: Seq<u8>, upper: bool)
    ensures
        spelled(data, upper).len() == 2 * data.len(),
    decreases data.len(),
{
    if data.len() > 0 {
        lemma_spelled_len(data.drop_last(), upper);
    }
}

proof fn lemma_spelled_at(data: Seq<u8>, upper: bool, k: int)
    requires
        0 <= k < data.len(),
    ensures
        spelled(data, upper).len() == 2 * data.len(),
        spelled(data, upper)[2 * k] == spelled_digit((data[k] / 16) as u8, upper),
        spelled(data, upper)[2 * k + 1] == spelled_digit((data[k] % 16) as u8, upper),
    decreases data.len(),
{
    lemma_spelled_len(data.drop_last(), upper);
    lemma_spelled_len(data, upper);
    if k < data.len() - 1 {
        lemma_spelled_at(data.drop_last(), upper, k);
        assert(spelled(data, upper)[2 * k] == spelled(data.drop_last(), upper)[2 * k]);
        assert(spelled(data, upper)[2 * k + 1] == spelled(data.drop_last(), upper)[2 * k + 1]);
    }
}

proof fn lemma_decode_spelled_from(data: Seq<u8>, upper: bool, k: nat)
    requires
        k <= data.len(),
    ensures
        decoded_from(spelled(data, upper), (2 * k) as nat, data.take(k as int)) == Ok::<
            Seq<u8>,
            Seq<char>,
        >(data),
    decreases data.len() - k,
{
    lemma_spelled_len(data, upper);
    if k == data.len() {
        assert(data.take(k as int) == data);
    } else {
        lemma_spelled_at(data, upper, k as int);
        let b = data[k as int];
        assert(b == (b / 16) * 16 + b % 16);
        lemma_decode_spelled_from(data, upper, k + 1);
        assert(data.take(k as int).push(b) == data.take(k as int + 1));
    }
}

/// Decoding gives back the bytes that a hexadecimal text was spelled from, in
/// either case of its digits.
pub proof fn decoding_gives_back_what_was_spelled(data: Seq<u8>, upper: bool)
    ensures
        decoded(spelled(data, upper)) == Ok::<Seq<u8>, Seq<char>>(data),
{
    lemma_spelled_len(data, upper);
    lemma_decode_spelled_from(data, upper, 0);
    assert(data.take(0) == Seq::<u8>::empty());
}

/// The escaped bytes `bytes` up to the `n`-th.
pub open spec fn escaped(bytes: Seq<u8>, n: nat) -> Seq<char>
    decreases n,
{
    if n == 0 {
        seq![]
    } else {
        escaped(bytes, (n - 1) as nat) + "\\"@ + hex_byte(bytes[n - 1])
    }
}

/// `ty` is the type of `count` bytes.
pub open spec fn is_byte_storage(ctx: Context, ty: usize, count: nat) -> bool {
    ctx.kind(ty) matches TypeKind::Array { elem, size } && size == count && ctx.kind(elem)
        == (TypeKind::Integer { width: 8 })
}

/// The initializer that spells `bytes`, or why storage of type `ty` cannot hold
/// them.
pub open spec fn byte_initializer(
    ctx: Context,
    ty: usize,
    bytes: Seq<u8>,
) -> Result<Seq<char>, Seq<char>> {
    if !(ctx.kind(ty) is Array) {
        Err(
            "explicit global initializer requires `[N x i8]` storage, found `"@ + ctx.shown(ty)
                + "`"@,
        )
    } else if !is_byte_storage(ctx, ty, bytes.len()) {
        Err(
            "explicit global initializer has "@ + decimal(bytes.len())
                + " bytes but storage type is `"@ + ctx.shown(ty) + "`; expected `["@ + decimal(
                bytes.len(),
            ) + " x i8]`"@,
        )
    } else {
        Ok("c\""@ + escaped(bytes, bytes.len()) + "\""@)
    }
}

/// The alignment of a global that states none.
pub open spec fn natural_alignment(ctx: Context, ty: usize) -> nat {
    match ctx.kind(ty) {
        TypeKind::Array { elem, size } => match ctx.kind(elem) {
            TypeKind::Integer { width } => (width / 8) as nat,
            TypeKind::Single => 4,
            _ => 8,
        },
        _ => 8,
    }
}

/// The alignment of a global.
pub open spec fn global_alignment(ctx: Context, global: GlobalIr) -> nat {
    match global.alignment {
        Some(alignment) => alignment as nat,
        None => natural_alignment(ctx, global.ty),
    }
}

/// The message for an NVVM global in an address space that holds none.
pub open spec fn global_space_message(name: Seq<char>, address_space: u32) -> Seq<char> {
    "NVVM global `@"@ + name + "` uses unsupported address space "@ + decimal(
        address_space as nat,
    ) + "; expected generic (0), global (1), shared (3), or constant (4)"@
}

/// Everything that [`ModuleExportState::export_global`] writes.
pub open spec fn put_global(e: Emission, state: ModuleExportState, global: GlobalIr) -> Emission {
    let space = global.address_space;
    let nvvm = state.nvvm_ir_dialect is Some;
    if nvvm && !(space == 0 || space == 1 || space == 3 || space == 4) {
        e.fail(global_space_message(global.symbol_name@, space))
    } else {
        let head = e.put("@"@).put(global.symbol_name@).put(
            if global.external_linkage {
                " = external addrspace("@
            } else {
                " = addrspace("@
            },
        ).put(decimal(space as nat)).put(") global "@).put_rendered(
            state.ctx.exported(global.ty),
        );
        let storage = if global.external_linkage {
            head
        } else {
            match global.initializer_hex {
                Some(hex) => match decoded(encode_utf8(hex@)) {
                    Ok(bytes) => head.put(" "@).put_rendered(
                        byte_initializer(*state.ctx, global.ty, bytes),
                    ),
                    Err(message) => head.fail(message),
                },
                None => head.put(
                    if nvvm && space == 3 {
                        " undef"@
                    } else {
                        " zeroinitializer"@
                    },
                ),
            }
        };
        storage.put(", align "@).put(decimal(global_alignment(*state.ctx, global))).put("\n"@)
    }
}

impl<'a> ModuleExportState<'a> {
    /// Writes a global variable.
    ///
    /// An NVVM module holds globals in generic, global, shared or constant memory
    /// only, and leaves shared memory uninitialized.
    pub fn export_global(&self, global: &GlobalIr, output: &mut String) -> (r: Result<(), String>)
        requires
            self.ctx.wf(),
            self.ctx.has(global.ty),
        ensures
            outcome(final(output)@, r) == put_global(after(old(output)@), *self, *global),
    {
        let name: &str = global.symbol_name.as_str();
        let address_space: u32 = global.address_space;
        let nvvm = self.nvvm_ir_dialect.is_some();
        if nvvm && !(address_space == 0 || address_space == 1 || address_space == 3
            || address_space == 4) {
            let mut message = "NVVM global `@".to_owned();
            message.append(name);
            message.append("` uses unsupported address space ");
            push_decimal(&mut message, address_space as u64);
            message.append("; expected generic (0), global (1), shared (3), or constant (4)");
            return Err(message);
        }
        let alignment: u64 = match global.alignment {
            Some(alignment) => alignment,
            None => self.natural_alignment_of(global.ty),
        };
        output.append("@");
        output.append(name);
        if global.external_linkage {
            output.append(" = external addrspace(");
        } else {
            output.append(" = addrspace(");
        }
        push_decimal(output, address_space as u64);
        output.append(") global ");
        if let Err(message) = self.export_type(global.ty, output) {
            return Err(message);
        }
        if !global.external_linkage {
            if let Some(hex) = &global.initializer_hex {
                let bytes = match decode_hex_initializer(hex.as_str()) {
                    Ok(bytes) => bytes,
                    Err(message) => {
                        return Err(message);
                    },
                };
                output.append(" ");
                if let Err(message) = self.export_byte_initializer(global.ty, &bytes, output) {
                    return Err(message);
                }
            } else if nvvm && address_space == 3 {
                output.append(" undef");
            } else {
                output.append(" zeroinitializer");
            }
        }
        output.append(", align ");
        push_decimal(output, alignment);
        output.append("\n");
        Ok(())
    }

    fn natural_alignment_of(&self, ty: usize) -> (r: u64)
        requires
            self.ctx.wf(),
            self.ctx.has(ty),
        ensures
            r == natural_alignment(*self.ctx, ty),
    {
        assert(self.ctx.refers_within(self.ctx.types@[ty as int].kind));
        match &self.ctx.types[ty].kind {
            TypeKind::Array { elem, size } => match &self.ctx.types[*elem].kind {
                TypeKind::Integer { width } => (*width / 8) as u64,
                TypeKind::Single => 4,
                _ => 8,
            },
            _ => 8,
        }
    }

    /// Writes the initializer that spells `bytes`. Every byte is escaped, so every
    /// bit pattern is kept.
    pub fn export_byte_initializer(
        &self,
        ty: usize,
        bytes: &Vec<u8>,
        output: &mut String,
    ) -> (r: Result<(), String>)
        requires
            self.ctx.wf(),
            self.ctx.has(ty),
        ensures
            outcome(final(output)@, r) == after(old(output)@).put_rendered(
                byte_initializer(*self.ctx, ty, bytes@),
            ),
    {
        assert(self.ctx.refers_within(self.ctx.types@[ty as int].kind));
        let fits = match &self.ctx.types[ty].kind {
            TypeKind::Array { elem, size } => {
                let is_i8 = match &self.ctx.types[*elem].kind {
                    TypeKind::Integer { width } => *width == 8,
                    _ => false,
                };
                is_i8 && *size == bytes.len() as u64
            },
            _ => {
                let mut message =
                    "explicit global initializer requires `[N x i8]` storage, found `".to_owned();
                message.append(self.ctx.types[ty].shown.as_str());
                message.append("`");
                return Err(message);
            },
        };
        if !fits {
            let mut message = "explicit global initializer has ".to_owned();
            push_decimal(&mut message, bytes.len() as u64);
            message.append(" bytes but storage type is `");
            message.append(self.ctx.types[ty].shown.as_str());
            message.append("`; expected `[");
            push_decimal(&mut message, bytes.len() as u64);
            message.append(" x i8]`");
            return Err(message);
        }
        let mut text = "c\"".to_owned();
        let mut i: usize = 0;
        assert(text@ =~= "c\""@ + escaped(bytes@, 0));
        while i < bytes.len()
            invariant
                i <= bytes.len(),
                text@ == "c\""@ + escaped(bytes@, i as nat),
            decreases bytes.len() - i,
        {
            text.append("\\");
            push_hex_byte(&mut text, bytes[i]);
            i += 1;
            assert(text@ =~= "c\""@ + escaped(bytes@, i as nat));
        }
        text.append("\"");
        output.append(text.as_str());
        Ok(())
    }
}

}
