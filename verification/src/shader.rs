//! Shader source for a sequence of kernels: the kernels' imports, then the
//! bindings of their images and parameters.

use vstd::prelude::*;
use vstd::string::StringExecFns;
use crate::noise::ErasedComputeNoiseView;
use crate::noise::NoiseTypeId;
use crate::noise_queue::ComputeNoiseInstructionView;
use crate::noise_queue::ComputeNoiseSequence;
use crate::table::Table;

verus! {

/// What shader source has to say to use a kernel: the module that holds it,
/// the structure of its parameters if it has any, and its function.
pub trait ComputeNoiseShader {
    spec fn spec_import_path() -> Seq<char>;

    spec fn spec_struct_name() -> Option<Seq<char>>;

    spec fn spec_function_name() -> Seq<char>;

    fn import_path() -> (path: &'static str)
        ensures
            path@ == Self::spec_import_path(),
    ;

    fn struct_name() -> (name: Option<&'static str>)
        ensures
            name is Some == Self::spec_struct_name() is Some,
            name matches Some(n) ==> n@ == Self::spec_struct_name()->0,
    ;

    fn function_name() -> (name: &'static str)
        ensures
            name@ == Self::spec_function_name(),
    ;
}

/// What `str::to_lowercase` makes of a string.
pub uninterp spec fn spec_to_lowercase(text: Seq<char>) -> Seq<char>;

/// `str::to_lowercase`: the string with each character replaced by its
/// lowercase form as Unicode defines it, whatever the locale.
#[verifier::external_body]
fn to_lowercase(text: &str) -> (lower: String)
    ensures
        lower@ == spec_to_lowercase(text@),
{
    text.to_lowercase()
}

/// The decimal digit of a number below ten.
pub open spec fn spec_digit(digit: nat) -> char {
    if digit == 0 {
        '0'
    } else if digit == 1 {
        '1'
    } else if digit == 2 {
        '2'
    } else if digit == 3 {
        '3'
    } else if digit == 4 {
        '4'
    } else if digit == 5 {
        '5'
    } else if digit == 6 {
        '6'
    } else if digit == 7 {
        '7'
    } else if digit == 8 {
        '8'
    } else {
        '9'
    }
}

/// A number in decimal, without leading zeros.
pub open spec fn spec_decimal(number: nat) -> Seq<char>
    decreases number,
{
    if number < 10 {
        seq![spec_digit(number)]
    } else {
        spec_decimal(number / 10).push(spec_digit(number % 10))
    }
}

fn digit(value: u32) -> (text: &'static str)
    requires
        value < 10,
    ensures
        text@ == seq![spec_digit(value as nat)],
{
    proof {
        reveal_strlit("0");
        reveal_strlit("1");
        reveal_strlit("2");
        reveal_strlit("3");
        reveal_strlit("4");
        reveal_strlit("5");
        reveal_strlit("6");
        reveal_strlit("7");
        reveal_strlit("8");
        reveal_strlit("9");
    }
    let text = if value == 0 {
        "0"
    } else if value == 1 {
        "1"
    } else if value == 2 {
        "2"
    } else if value == 3 {
        "3"
    } else if value == 4 {
        "4"
    } else if value == 5 {
        "5"
    } else if value == 6 {
        "6"
    } else if value == 7 {
        "7"
    } else if value == 8 {
        "8"
    } else {
        "9"
    };
    assert(text@ =~= seq![spec_digit(value as nat)]);
    text
}

/// Writes a number in decimal.
pub fn decimal(number: u32) -> (text: String)
    ensures
        text@ == spec_decimal(number as nat),
    decreases number,
{
    if number < 10 {
        String::from_str(digit(number))
    } else {
        let mut text = decimal(number / 10);
        text.append(digit(number % 10));
        assert(text@ =~= spec_decimal(number as nat));
        text
    }
}

/// The line that imports a kernel: its function, and before it the
/// structure of its parameters if it has one.
pub open spec fn spec_import_line(noise: ErasedComputeNoiseView) -> Seq<char> {
    match noise.struct_name {
        Some(struct_name) => "#import "@ + noise.import_path + "::{"@ + struct_name + ", "@
            + noise.function_name + "}\n"@,
        None => "#import "@ + noise.import_path + "::"@ + noise.function_name + "\n"@,
    }
}

/// Whether no instruction before instruction `k` runs a kernel of the same type.
pub open spec fn spec_first_of_type(sequence: Seq<ComputeNoiseInstructionView>, k: int) -> bool {
    forall|j: int|
        0 <= j < k ==> (#[trigger] sequence[j]).noise.type_id != sequence[k].noise.type_id
}

/// The import lines of a sequence: one for each kernel type, at its first instruction.
pub open spec fn spec_import_lines(sequence: Seq<ComputeNoiseInstructionView>) -> Seq<char>
    decreases sequence.len(),
{
    if sequence.len() == 0 {
        Seq::empty()
    } else {
        let before = spec_import_lines(sequence.drop_last());
        if spec_first_of_type(sequence, sequence.len() - 1) {
            before + spec_import_line(sequence.last().noise)
        } else {
            before
        }
    }
}

/// The imports of a sequence: its import lines and an empty line.
pub open spec fn spec_imports(sequence: Seq<ComputeNoiseInstructionView>) -> Seq<char> {
    spec_import_lines(sequence) + "\n"@
}

/// The binding of an input image.
pub open spec fn spec_input_binding(binding_index: nat) -> Seq<char> {
    "@group(0) @binding("@ + spec_decimal(binding_index) + ") var input_texture"@ + spec_decimal(
        binding_index,
    ) + ": texture_storage_2d<rgba8unorm, read_write>;\n"@
}

/// The binding of the parameters of a kernel. The variable is named by the
/// structure's name in lowercase and the binding's number.
pub open spec fn spec_uniform_binding(
    binding_index: nat,
    lowercase_name: Seq<char>,
    struct_name: Seq<char>,
) -> Seq<char> {
    "@group(0) @binding("@ + spec_decimal(binding_index) + ") var<uniform> "@ + lowercase_name
        + spec_decimal(binding_index) + ": "@ + struct_name + ";\n"@
}

/// The bindings of `count` input images, numbered from `binding_index` on.
pub open spec fn spec_input_bindings(binding_index: nat, count: nat) -> Seq<char>
    decreases count,
{
    if count == 0 {
        Seq::empty()
    } else {
        spec_input_bindings(binding_index, (count - 1) as nat) + spec_input_binding(
            (binding_index + count - 1) as nat,
        )
    }
}

/// The number of bindings that an instruction declares: one for each image
/// but the last, and one for its parameters if it has any.
pub open spec fn spec_binding_count_of(instruction: ComputeNoiseInstructionView) -> nat {
    let inputs: nat = if instruction.images.len() > 1 {
        (instruction.images.len() - 1) as nat
    } else {
        0
    };
    if instruction.noise.struct_name is Some {
        inputs + 1
    } else {
        inputs
    }
}

/// The number of the next binding after a sequence; binding 0 is the output.
pub open spec fn spec_binding_count(sequence: Seq<ComputeNoiseInstructionView>) -> nat
    decreases sequence.len(),
{
    if sequence.len() == 0 {
        1
    } else {
        spec_binding_count(sequence.drop_last()) + spec_binding_count_of(sequence.last())
    }
}

/// The bindings that an instruction declares when `binding_index` is the next
/// free number: its input images, then its parameters.
pub open spec fn spec_instruction_bindings(
    binding_index: nat,
    instruction: ComputeNoiseInstructionView,
) -> Seq<char> {
    let inputs: nat = if instruction.images.len() > 1 {
        (instruction.images.len() - 1) as nat
    } else {
        0
    };
    let input_bindings = spec_input_bindings(binding_index, inputs);
    match instruction.noise.struct_name {
        Some(struct_name) => input_bindings + spec_uniform_binding(
            binding_index + inputs,
            spec_to_lowercase(struct_name),
            struct_name,
        ),
        None => input_bindings,
    }
}

/// The bindings that the instructions of a sequence declare, in order.
pub open spec fn spec_sequence_bindings(sequence: Seq<ComputeNoiseInstructionView>) -> Seq<char>
    decreases sequence.len(),
{
    if sequence.len() == 0 {
        Seq::empty()
    } else {
        spec_sequence_bindings(sequence.drop_last()) + spec_instruction_bindings(
            spec_binding_count(sequence.drop_last()),
            sequence.last(),
        )
    }
}

/// The binding of the output image.
pub open spec fn spec_output_binding() -> Seq<char> {
    "@group(0) @binding(0) var output: texture_storage_2d<rgba8unorm, read_write>;\n"@
}

/// The bindings of a sequence: the output, then what the instructions declare.
pub open spec fn spec_bindings(sequence: Seq<ComputeNoiseInstructionView>) -> Seq<char> {
    spec_output_binding() + spec_sequence_bindings(sequence)
}

/// The shader source of a sequence.
pub open spec fn spec_noise_shader(sequence: Seq<ComputeNoiseInstructionView>) -> Seq<char> {
    spec_imports(sequence) + spec_bindings(sequence)
}

/// Writes the binding of an input image.
pub fn input_binding(binding_index: u32) -> (line: String)
    ensures
        line@ == spec_input_binding(binding_index as nat),
{
    let number = decimal(binding_index);
    let mut line = String::from_str("@group(0) @binding(");
    line.append(number.as_str());
    line.append(") var input_texture");
    line.append(number.as_str());
    line.append(": texture_storage_2d<rgba8unorm, read_write>;\n");
    line
}

/// Writes the binding of the parameters of a kernel whose structure is
/// `struct_name`, and `lowercase_name` in lowercase.
pub fn uniform_binding(binding_index: u32, lowercase_name: &str, struct_name: &str) -> (line:
    String)
    ensures
        line@ == spec_uniform_binding(binding_index as nat, lowercase_name@, struct_name@),
{
    let number = decimal(binding_index);
    let mut line = String::from_str("@group(0) @binding(");
    line.append(number.as_str());
    line.append(") var<uniform> ");
    line.append(lowercase_name);
    line.append(number.as_str());
    line.append(": ");
    line.append(struct_name);
    line.append(";\n");
    line
}

/// Writes the line that imports a kernel.
pub fn import_line(import_path: &str, struct_name: Option<&str>, function_name: &str) -> (line:
    String)
    ensures
        line@ == (match struct_name {
            Some(struct_name) => "#import "@ + import_path@ + "::{"@ + struct_name@ + ", "@
                + function_name@ + "}\n"@,
            None => "#import "@ + import_path@ + "::"@ + function_name@ + "\n"@,
        }),
{
    let mut line = String::from_str("#import ");
    line.append(import_path);
    match struct_name {
        Some(struct_name) => {
            line.append("::{");
            line.append(struct_name);
            line.append(", ");
            line.append(function_name);
            line.append("}\n");
        },
        None => {
            line.append("::");
            line.append(function_name);
            line.append("\n");
        },
    }
    line
}

fn add_imports(shader: &mut String, sequence: &ComputeNoiseSequence)
    ensures
        final(shader)@ == old(shader)@ + spec_imports(sequence@),
{
    let mut imports: Table<NoiseTypeId, ()> = Table::new();
    let mut k: usize = 0;
    proof {
        assert(sequence@.take(0) =~= Seq::<ComputeNoiseInstructionView>::empty());
        assert(shader@ =~= old(shader)@ + spec_import_lines(sequence@.take(0)));
    }
    while k < sequence.0.len()
        invariant
            k <= sequence.0.len(),
            imports.wf(),
            forall|j: int| 0 <= j < k ==> imports.contains((#[trigger] sequence@[j]).noise.type_id),
            forall|type_id: NoiseTypeId|
                imports.contains(type_id) ==> exists|j: int|
                    0 <= j < k && (#[trigger] sequence@[j]).noise.type_id == type_id,
            shader@ == old(shader)@ + spec_import_lines(sequence@.take(k as int)),
        decreases sequence.0.len() - k,
    {
        let instruction = &sequence.0[k];
        let ghost taken = sequence@.take(k + 1);
        let ghost seen = imports;
        proof {
            assert(taken.drop_last() =~= sequence@.take(k as int));
            assert(taken.last() == sequence@[k as int]);
            if imports.contains(instruction.noise.type_id) {
                let j = choose|j: int|
                    0 <= j < k && (#[trigger] sequence@[j]).noise.type_id
                        == instruction.noise.type_id;
                assert(taken[j].noise.type_id == taken[k as int].noise.type_id);
            } else {
                assert forall|j: int| 0 <= j < k implies (#[trigger] taken[j]).noise.type_id
                    != taken[k as int].noise.type_id by {
                    assert(imports.contains(sequence@[j].noise.type_id));
                }
            }
        }
        if imports.insert(instruction.noise.type_id, ()).is_none() {
            let line = import_line(
                instruction.noise.import_path,
                instruction.noise.struct_name,
                instruction.noise.function_name,
            );
            assert(line@ == spec_import_line(sequence@[k as int].noise));
            shader.append(line.as_str());
            assert(shader@ =~= old(shader)@ + spec_import_lines(taken));
        }
        proof {
            assert forall|type_id: NoiseTypeId| imports.contains(type_id) implies exists|j: int|
                0 <= j < k + 1 && (#[trigger] sequence@[j]).noise.type_id == type_id by {
                if type_id == instruction.noise.type_id {
                    assert(sequence@[k as int].noise.type_id == type_id);
                } else {
                    assert(seen.contains(type_id));
                    let j = choose|j: int|
                        0 <= j < k && (#[trigger] sequence@[j]).noise.type_id == type_id;
                    assert(0 <= j < k + 1);
                }
            }
        }
        k = k + 1;
    }
    assert(sequence@.take(k as int) =~= sequence@);
    shader.append("\n");
    assert(shader@ =~= old(shader)@ + spec_imports(sequence@));
}

fn add_bindings(shader: &mut String, sequence: &ComputeNoiseSequence)
    requires
        spec_binding_count(sequence@) <= u32::MAX,
    ensures
        final(shader)@ == old(shader)@ + spec_bindings(sequence@),
{
    shader.append(
        "@group(0) @binding(0) var output: texture_storage_2d<rgba8unorm, read_write>;\n",
    );
    let mut binding_index: u32 = 1;
    let mut k: usize = 0;
    proof {
        assert(sequence@.take(0) =~= Seq::<ComputeNoiseInstructionView>::empty());
        assert(shader@ =~= old(shader)@ + spec_output_binding() + spec_sequence_bindings(
            sequence@.take(0),
        ));
    }
    while k < sequence.0.len()
        invariant
            k <= sequence.0.len(),
            spec_binding_count(sequence@) <= u32::MAX,
            binding_index == spec_binding_count(sequence@.take(k as int)),
            shader@ == old(shader)@ + spec_output_binding() + spec_sequence_bindings(
                sequence@.take(k as int),
            ),
        decreases sequence.0.len() - k,
    {
        let instruction = &sequence.0[k];
        let ghost taken = sequence@.take(k + 1);
        let ghost start = binding_index as nat;
        let ghost before = shader@;
        proof {
            assert(taken.drop_last() =~= sequence@.take(k as int));
            assert(taken.last() == sequence@[k as int]);
            lemma_binding_count_grows(sequence@, k + 1);
        }
        let inputs: usize = if instruction.images.len() > 1 {
            instruction.images.len() - 1
        } else {
            0
        };
        let mut i: usize = 0;
        while i < inputs
            invariant
                i <= inputs,
                start + inputs <= u32::MAX,
                binding_index == start + i,
                shader@ == before + spec_input_bindings(start, i as nat),
            decreases inputs - i,
        {
            let line = input_binding(binding_index);
            shader.append(line.as_str());
            binding_index = binding_index + 1;
            i = i + 1;
            assert(shader@ =~= before + spec_input_bindings(start, i as nat));
        }
        match instruction.noise.struct_name {
            Some(struct_name) => {
                let lowercase_name = to_lowercase(struct_name);
                let line = uniform_binding(binding_index, lowercase_name.as_str(), struct_name);
                shader.append(line.as_str());
                binding_index = binding_index + 1;
            },
            None => {},
        }
        assert(shader@ =~= old(shader)@ + spec_output_binding() + spec_sequence_bindings(taken));
        k = k + 1;
    }
    assert(sequence@.take(k as int) =~= sequence@);
    assert(shader@ =~= old(shader)@ + spec_bindings(sequence@));
}

/// The number of the next binding only grows along a sequence.
proof fn lemma_binding_count_grows(sequence: Seq<ComputeNoiseInstructionView>, k: int)
    requires
        0 <= k <= sequence.len(),
    ensures
        spec_binding_count(sequence.take(k)) <= spec_binding_count(sequence),
    decreases sequence.len() - k,
{
    if k == sequence.len() {
        assert(sequence.take(k) =~= sequence);
    } else {
        lemma_binding_count_grows(sequence, k + 1);
        assert(sequence.take(k + 1).drop_last() =~= sequence.take(k));
    }
}

/// Writes the shader source of a sequence: the import of each kernel type
/// once, at its first instruction, an empty line, the binding of the output,
/// and for each instruction in turn the bindings of its input images and of
/// its parameters, numbered from 1 on.
pub fn generate_noise_shader(sequence: &ComputeNoiseSequence) -> (shader: String)
    requires
        spec_binding_count(sequence@) <= u32::MAX,
    ensures
        shader@ == spec_noise_shader(sequence@),
{
    let mut shader = String::new();
    add_imports(&mut shader, sequence);
    add_bindings(&mut shader, sequence);
    assert(shader@ =~= spec_noise_shader(sequence@));
    shader
}

} // verus!
