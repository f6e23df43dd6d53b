use vstd::prelude::*;

verus! {

/// The newline byte.
pub const NEWLINE: u8 = 10;

/// `f`, the last byte of the fragment shader's path.
pub const FRAGMENT_LETTER: u8 = 102;

/// `v`, the last byte of the vertex shader's path.
pub const VERTEX_LETTER: u8 = 118;

/// The two programmable stages the core compiles a shader for.
#[derive(PartialEq, Eq, Structural, Clone, Copy, Debug)]
pub enum ShaderStage {
    Fragment,
    Vertex,
}

/// The line that every shader source starts with: `#version 120` and a
/// newline.
pub open spec fn version_line() -> Seq<u8> {
    seq![35u8, 118u8, 101u8, 114u8, 115u8, 105u8, 111u8, 110u8, 32u8, 49u8, 50u8, 48u8, NEWLINE]
}

/// `s` without its last byte when that byte is a newline.
pub open spec fn strip_trailing_newline(s: Seq<u8>) -> Seq<u8> {
    if s.len() > 0 && s.last() == NEWLINE {
        s.drop_last()
    } else {
        s
    }
}

/// The bytes handed to the shader compiler for a shader file: the version
/// line, then the file, with one trailing newline dropped, terminated by NUL.
pub open spec fn shader_source_spec(file: Seq<u8>) -> Seq<u8> {
    strip_trailing_newline(version_line() + file).push(0u8)
}

/// The directory and stem shared by the two shader files.
pub open spec fn path_stem() -> Seq<u8> {
    seq![
        68u8, 101u8, 102u8, 97u8, 117u8, 108u8, 116u8, 47u8,
        115u8, 104u8, 97u8, 100u8, 101u8, 114u8, 115u8, 47u8,
        95u8, 46u8, 103u8, 108u8, 115u8, 108u8,
    ]
}

/// The last byte of the path of a stage's shader file.
pub open spec fn stage_letter(stage: ShaderStage) -> u8 {
    match stage {
        ShaderStage::Fragment => FRAGMENT_LETTER,
        ShaderStage::Vertex => VERTEX_LETTER,
    }
}

/// The path of the file holding the shader of `stage`.
pub open spec fn shader_path_spec(stage: ShaderStage) -> Seq<u8> {
    path_stem().push(stage_letter(stage))
}

/// The stage a shader file is compiled for, read off the last byte of its
/// path: `v` means vertex, anything else fragment.
pub open spec fn stage_of_path(path: Seq<u8>) -> ShaderStage {
    if path.last() == VERTEX_LETTER {
        ShaderStage::Vertex
    } else {
        ShaderStage::Fragment
    }
}

/// Which query an info log is read with.
#[derive(PartialEq, Eq, Structural, Clone, Copy, Debug)]
pub enum InfoLogSource {
    /// The object is a shader: read the shader's log.
    Shader,
    /// The object is a program: read the program's log.
    Program,
    /// The object is neither; there is no log to read.
    Neither,
}

/// Assembles the source of a shader from the contents of its file.
pub fn shader_source(file: &[u8]) -> (src: Vec<u8>)
    ensures
        src@ == shader_source_spec(file@),
{
    let mut src: Vec<u8> = vec![35u8, 118u8, 101u8, 114u8, 115u8, 105u8, 111u8, 110u8, 32u8, 49u8, 50u8, 48u8, NEWLINE];
    assert(src@ == version_line());
    let mut i: usize = 0;
    while i < file.len()
        invariant
            i <= file.len(),
            src@ == version_line() + file@.take(i as int),
        decreases file.len() - i,
    {
        src.push(file[i]);
        assert(file@.take(i + 1) == file@.take(i as int).push(file@[i as int]));
        i = i + 1;
    }
    assert(file@.take(file.len() as int) == file@);
    let n: usize = src.len();
    if src[n - 1] == NEWLINE {
        src.pop();
    }
    src.push(0u8);
    src
}

/// The path of the file holding the shader of `stage`.
pub fn shader_path(stage: ShaderStage) -> (path: Vec<u8>)
    ensures
        path@ == shader_path_spec(stage),
{
    let mut path: Vec<u8> = vec![
        68u8, 101u8, 102u8, 97u8, 117u8, 108u8, 116u8, 47u8,
        115u8, 104u8, 97u8, 100u8, 101u8, 114u8, 115u8, 47u8,
        95u8, 46u8, 103u8, 108u8, 115u8, 108u8,
    ];
    match stage {
        ShaderStage::Fragment => path.push(FRAGMENT_LETTER),
        ShaderStage::Vertex => path.push(VERTEX_LETTER),
    }
    path
}

/// The order in which the shaders are compiled and attached.
pub fn load_order() -> (stages: [ShaderStage; 2])
    ensures
        stages@ == seq![ShaderStage::Fragment, ShaderStage::Vertex],
{
    [ShaderStage::Fragment, ShaderStage::Vertex]
}

/// The stage a shader file is compiled for, given its path.
pub fn stage_for_path(path: &[u8]) -> (stage: ShaderStage)
    requires
        path.len() > 0,
    ensures
        stage == stage_of_path(path@),
        stage == ShaderStage::Vertex <==> path[path.len() - 1] == VERTEX_LETTER,
        stage == ShaderStage::Fragment <==> path[path.len() - 1] != VERTEX_LETTER,
{
    if path[path.len() - 1] == VERTEX_LETTER {
        ShaderStage::Vertex
    } else {
        ShaderStage::Fragment
    }
}

/// Which log to read for an object that failed, shaders first.
pub fn info_log_source(is_shader: bool, is_program: bool) -> (source: InfoLogSource)
    ensures
        source == (if is_shader {
            InfoLogSource::Shader
        } else if is_program {
            InfoLogSource::Program
        } else {
            InfoLogSource::Neither
        }),
{
    if is_shader {
        InfoLogSource::Shader
    } else if is_program {
        InfoLogSource::Program
    } else {
        InfoLogSource::Neither
    }
}

/// The text of an info log, given the buffer the driver filled: every byte
/// but the terminating NUL that the reported length counts.
pub fn info_log_text(log: &[u8]) -> (text: Vec<u8>)
    requires
        log.len() >= 1,
    ensures
        text@ == log@.drop_last(),
{
    let mut text: Vec<u8> = Vec::new();
    let mut i: usize = 0;
    while i < log.len() - 1
        invariant
            log.len() >= 1,
            i <= log.len() - 1,
            text@ == log@.take(i as int),
        decreases log.len() - 1 - i,
    {
        text.push(log[i]);
        assert(log@.take(i + 1) == log@.take(i as int).push(log@[i as int]));
        i = i + 1;
    }
    text
}

/// The message given for an object that is neither a shader nor a program.
pub fn not_an_object_message() -> (m: &'static str)
    ensures
        m@ == "not a shader or a program"@,
{
    "not a shader or a program"
}

/// The index of a vertex attribute, given the location the driver reported;
/// a negative location means the attribute was not found.
pub fn attribute_index(location: i32) -> (index: Option<u32>)
    ensures
        index == (if location >= 0 {
            Some(location as u32)
        } else {
            None::<u32>
        }),
{
    if location >= 0 {
        Some(location as u32)
    } else {
        None
    }
}

/// A shader path names the stage it was made for.
pub proof fn lemma_path_names_stage(stage: ShaderStage)
    ensures
        stage_of_path(shader_path_spec(stage)) == stage,
{
}

/// The assembled source starts with the version line's `#version 120`, ends
/// with a NUL, and holds the file minus at most one trailing newline.
pub proof fn lemma_source_shape(file: Seq<u8>)
    ensures
        shader_source_spec(file).last() == 0u8,
        shader_source_spec(file).subrange(0, 12) == version_line().subrange(0, 12),
        shader_source_spec(file).subrange(0, 12) == seq![35u8, 118u8, 101u8, 114u8, 115u8, 105u8, 111u8, 110u8, 32u8, 49u8, 50u8, 48u8],
        file.len() > 0 && file.last() == NEWLINE ==> shader_source_spec(file) == (
        version_line() + file.drop_last()).push(0u8),
        file.len() > 0 && file.last() != NEWLINE ==> shader_source_spec(file) == (version_line()
            + file).push(0u8),
        file.len() == 0 ==> shader_source_spec(file) == version_line().drop_last().push(0u8),
{
    let whole = version_line() + file;
    if file.len() > 0 {
        assert(whole.last() == file.last());
        if file.last() == NEWLINE {
            assert(whole.drop_last() == version_line() + file.drop_last());
        }
    } else {
        assert(whole == version_line());
    }
    assert(shader_source_spec(file).subrange(0, 12) == version_line().subrange(0, 12));
}

/// Whatever the path, the stage is decided by its last byte alone: vertex
/// when it is `v`, fragment otherwise; bytes before it do not matter.
pub proof fn lemma_stage_by_last_byte(path: Seq<u8>, prefix: Seq<u8>)
    requires
        path.len() > 0,
    ensures
        stage_of_path(path) == ShaderStage::Vertex <==> path[path.len() - 1] == VERTEX_LETTER,
        stage_of_path(path) == ShaderStage::Fragment <==> path[path.len() - 1] != VERTEX_LETTER,
        stage_of_path(prefix + path) == stage_of_path(path),
{
    assert((prefix + path).last() == path.last());
}

} // verus!
