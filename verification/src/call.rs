//! The vocabulary shared with the graphics driver: what can be asked of it,
//! what it answers, and which objects a call creates or destroys.

use vstd::prelude::*;
use vstd::multiset::Multiset;

verus! {

/// Error state of a driver that has nothing to report.
pub const NO_ERROR: u32 = 0;

/// Status of a framebuffer that can be drawn into.
pub const FRAMEBUFFER_COMPLETE: u32 = 0x8CD5;

/// The two programmable stages of a shader program.
#[derive(Clone, Copy, Debug, PartialEq, Eq, Structural)]
pub enum ShaderStage {
    Vertex,
    Fragment,
}

/// The two kinds of named shader inputs that have a location.
#[derive(Clone, Copy, Debug, PartialEq, Eq, Structural)]
pub enum VariableKind {
    Attribute,
    Uniform,
}

/// One call to the graphics driver.
///
/// Handles are the driver's own; the handle 0 stands for "no object" when
/// binding, and for the screen when binding a framebuffer.
#[derive(Debug, PartialEq, Eq)]
pub enum Request {
    /// Generate one buffer. Answered with its handle.
    GenBuffer,
    /// Bind `buffer` as the current vertex array buffer.
    BindArrayBuffer { buffer: u32 },
    /// Fill the bound array buffer with the full-screen quad, for static drawing.
    UploadQuad,
    DeleteBuffer { buffer: u32 },
    /// Create a shader object of the given stage. Answered with its handle.
    CreateShader { stage: ShaderStage },
    ShaderSource { shader: u32, source: String },
    CompileShader { shader: u32 },
    /// Ask whether the last compilation succeeded. Answered with a flag.
    CompileStatus { shader: u32 },
    /// Fetch the compiler's log. Answered with its text.
    ShaderLog { shader: u32 },
    DeleteShader { shader: u32 },
    /// Create a program object. Answered with its handle.
    CreateProgram,
    AttachShader { program: u32, shader: u32 },
    LinkProgram { program: u32 },
    /// Ask whether the last link succeeded. Answered with a flag.
    LinkStatus { program: u32 },
    /// Fetch the linker's log. Answered with its text.
    ProgramLog { program: u32 },
    /// Look up a vertex attribute. Answered with its location, negative if unknown.
    AttribLocation { program: u32, name: String },
    /// Look up a uniform. Answered with its location, negative if unknown.
    UniformLocation { program: u32, name: String },
    UseProgram { program: u32 },
    DeleteProgram { program: u32 },
    /// Generate one texture. Answered with its handle.
    GenTexture,
    /// Bind `texture` as the current two-dimensional texture.
    BindTexture { texture: u32 },
    /// Give the bound texture RGBA storage of the given size, contents undefined,
    /// sampled linearly.
    AllocateTexture { width: u32, height: u32 },
    DeleteTexture { texture: u32 },
    /// Generate one framebuffer. Answered with its handle.
    GenFramebuffer,
    /// Make `framebuffer` the destination of drawing; 0 is the screen.
    BindFramebuffer { framebuffer: u32 },
    /// Attach `texture` as the only color attachment of the bound framebuffer.
    AttachColorTexture { texture: u32 },
    /// Ask for the completeness status of the bound framebuffer. Answered with it.
    FramebufferStatus,
    DeleteFramebuffer { framebuffer: u32 },
    EnableVertexAttrib { index: u32 },
    DisableVertexAttrib { index: u32 },
    /// Read attribute `index` from the bound array buffer as tightly packed
    /// pairs of floats.
    QuadAttribPointer { index: u32 },
    /// Set the clear color; each channel is a fraction of 255.
    ClearColor { red: u8, green: u8, blue: u8, alpha: u8 },
    /// Clear the chosen planes of the destination.
    Clear { color: bool, depth: bool },
    /// Point the sampler uniform at `location` to texture unit `unit`.
    SetSampler { location: i32, unit: u32 },
    /// Draw `count` vertices, starting at `first`, as a triangle strip.
    DrawTriangleStrip { first: u32, count: u32 },
}

/// A [`Request`] as a mathematical value.
pub enum RequestView {
    GenBuffer,
    BindArrayBuffer { buffer: u32 },
    UploadQuad,
    DeleteBuffer { buffer: u32 },
    CreateShader { stage: ShaderStage },
    ShaderSource { shader: u32, source: Seq<char> },
    CompileShader { shader: u32 },
    CompileStatus { shader: u32 },
    ShaderLog { shader: u32 },
    DeleteShader { shader: u32 },
    CreateProgram,
    AttachShader { program: u32, shader: u32 },
    LinkProgram { program: u32 },
    LinkStatus { program: u32 },
    ProgramLog { program: u32 },
    AttribLocation { program: u32, name: Seq<char> },
    UniformLocation { program: u32, name: Seq<char> },
    UseProgram { program: u32 },
    DeleteProgram { program: u32 },
    GenTexture,
    BindTexture { texture: u32 },
    AllocateTexture { width: u32, height: u32 },
    DeleteTexture { texture: u32 },
    GenFramebuffer,
    BindFramebuffer { framebuffer: u32 },
    AttachColorTexture { texture: u32 },
    FramebufferStatus,
    DeleteFramebuffer { framebuffer: u32 },
    EnableVertexAttrib { index: u32 },
    DisableVertexAttrib { index: u32 },
    QuadAttribPointer { index: u32 },
    ClearColor { red: u8, green: u8, blue: u8, alpha: u8 },
    Clear { color: bool, depth: bool },
    SetSampler { location: i32, unit: u32 },
    DrawTriangleStrip { first: u32, count: u32 },
}

impl View for Request {
    type V = RequestView;

    open spec fn view(&self) -> RequestView {
        match *self {
            Request::GenBuffer => RequestView::GenBuffer,
            Request::BindArrayBuffer { buffer } => RequestView::BindArrayBuffer { buffer },
            Request::UploadQuad => RequestView::UploadQuad,
            Request::DeleteBuffer { buffer } => RequestView::DeleteBuffer { buffer },
            Request::CreateShader { stage } => RequestView::CreateShader { stage },
            Request::ShaderSource { shader, source } => RequestView::ShaderSource {
                shader,
                source: source@,
            },
            Request::CompileShader { shader } => RequestView::CompileShader { shader },
            Request::CompileStatus { shader } => RequestView::CompileStatus { shader },
            Request::ShaderLog { shader } => RequestView::ShaderLog { shader },
            Request::DeleteShader { shader } => RequestView::DeleteShader { shader },
            Request::CreateProgram => RequestView::CreateProgram,
            Request::AttachShader { program, shader } => RequestView::AttachShader {
                program,
                shader,
            },
            Request::LinkProgram { program } => RequestView::LinkProgram { program },
            Request::LinkStatus { program } => RequestView::LinkStatus { program },
            Request::ProgramLog { program } => RequestView::ProgramLog { program },
            Request::AttribLocation { program, name } => RequestView::AttribLocation {
                program,
                name: name@,
            },
            Request::UniformLocation { program, name } => RequestView::UniformLocation {
                program,
                name: name@,
            },
            Request::UseProgram { program } => RequestView::UseProgram { program },
            Request::DeleteProgram { program } => RequestView::DeleteProgram { program },
            Request::GenTexture => RequestView::GenTexture,
            Request::BindTexture { texture } => RequestView::BindTexture { texture },
            Request::AllocateTexture { width, height } => RequestView::AllocateTexture {
                width,
                height,
            },
            Request::DeleteTexture { texture } => RequestView::DeleteTexture { texture },
            Request::GenFramebuffer => RequestView::GenFramebuffer,
            Request::BindFramebuffer { framebuffer } => RequestView::BindFramebuffer {
                framebuffer,
            },
            Request::AttachColorTexture { texture } => RequestView::AttachColorTexture {
                texture,
            },
            Request::FramebufferStatus => RequestView::FramebufferStatus,
            Request::DeleteFramebuffer { framebuffer } => RequestView::DeleteFramebuffer {
                framebuffer,
            },
            Request::EnableVertexAttrib { index } => RequestView::EnableVertexAttrib { index },
            Request::DisableVertexAttrib { index } => RequestView::DisableVertexAttrib { index },
            Request::QuadAttribPointer { index } => RequestView::QuadAttribPointer { index },
            Request::ClearColor { red, green, blue, alpha } => RequestView::ClearColor {
                red,
                green,
                blue,
                alpha,
            },
            Request::Clear { color, depth } => RequestView::Clear { color, depth },
            Request::SetSampler { location, unit } => RequestView::SetSampler { location, unit },
            Request::DrawTriangleStrip { first, count } => RequestView::DrawTriangleStrip {
                first,
                count,
            },
        }
    }
}

impl RequestView {
    /// The operation that the call performs, in words.
    pub open spec fn operation(self) -> Seq<char> {
        match self {
            RequestView::GenBuffer => "generate buffer"@,
            RequestView::BindArrayBuffer { .. } => "bind array buffer"@,
            RequestView::UploadQuad => "upload quad"@,
            RequestView::DeleteBuffer { .. } => "delete buffer"@,
            RequestView::CreateShader { .. } => "create shader"@,
            RequestView::ShaderSource { .. } => "set shader source"@,
            RequestView::CompileShader { .. } => "compile shader"@,
            RequestView::CompileStatus { .. } => "query compile status"@,
            RequestView::ShaderLog { .. } => "fetch shader log"@,
            RequestView::DeleteShader { .. } => "delete shader"@,
            RequestView::CreateProgram => "create program"@,
            RequestView::AttachShader { .. } => "attach shader"@,
            RequestView::LinkProgram { .. } => "link program"@,
            RequestView::LinkStatus { .. } => "query link status"@,
            RequestView::ProgramLog { .. } => "fetch program log"@,
            RequestView::AttribLocation { .. } => "look up attribute"@,
            RequestView::UniformLocation { .. } => "look up uniform"@,
            RequestView::UseProgram { .. } => "use program"@,
            RequestView::DeleteProgram { .. } => "delete program"@,
            RequestView::GenTexture => "generate texture"@,
            RequestView::BindTexture { .. } => "bind texture"@,
            RequestView::AllocateTexture { .. } => "allocate texture"@,
            RequestView::DeleteTexture { .. } => "delete texture"@,
            RequestView::GenFramebuffer => "generate framebuffer"@,
            RequestView::BindFramebuffer { .. } => "bind framebuffer"@,
            RequestView::AttachColorTexture { .. } => "attach color texture"@,
            RequestView::FramebufferStatus => "check framebuffer status"@,
            RequestView::DeleteFramebuffer { .. } => "delete framebuffer"@,
            RequestView::EnableVertexAttrib { .. } => "enable vertex attribute"@,
            RequestView::DisableVertexAttrib { .. } => "disable vertex attribute"@,
            RequestView::QuadAttribPointer { .. } => "set attribute pointer"@,
            RequestView::ClearColor { .. } => "set clear color"@,
            RequestView::Clear { .. } => "clear"@,
            RequestView::SetSampler { .. } => "set sampler"@,
            RequestView::DrawTriangleStrip { .. } => "draw triangle strip"@,
        }
    }
}

impl Request {
    /// The operation that the call performs, in words, for diagnostics.
    pub fn operation(&self) -> (words: &'static str)
        ensures
            words@ == self@.operation(),
    {
        match self {
            Request::GenBuffer => "generate buffer",
            Request::BindArrayBuffer { .. } => "bind array buffer",
            Request::UploadQuad => "upload quad",
            Request::DeleteBuffer { .. } => "delete buffer",
            Request::CreateShader { .. } => "create shader",
            Request::ShaderSource { .. } => "set shader source",
            Request::CompileShader { .. } => "compile shader",
            Request::CompileStatus { .. } => "query compile status",
            Request::ShaderLog { .. } => "fetch shader log",
            Request::DeleteShader { .. } => "delete shader",
            Request::CreateProgram => "create program",
            Request::AttachShader { .. } => "attach shader",
            Request::LinkProgram { .. } => "link program",
            Request::LinkStatus { .. } => "query link status",
            Request::ProgramLog { .. } => "fetch program log",
            Request::AttribLocation { .. } => "look up attribute",
            Request::UniformLocation { .. } => "look up uniform",
            Request::UseProgram { .. } => "use program",
            Request::DeleteProgram { .. } => "delete program",
            Request::GenTexture => "generate texture",
            Request::BindTexture { .. } => "bind texture",
            Request::AllocateTexture { .. } => "allocate texture",
            Request::DeleteTexture { .. } => "delete texture",
            Request::GenFramebuffer => "generate framebuffer",
            Request::BindFramebuffer { .. } => "bind framebuffer",
            Request::AttachColorTexture { .. } => "attach color texture",
            Request::FramebufferStatus => "check framebuffer status",
            Request::DeleteFramebuffer { .. } => "delete framebuffer",
            Request::EnableVertexAttrib { .. } => "enable vertex attribute",
            Request::DisableVertexAttrib { .. } => "disable vertex attribute",
            Request::QuadAttribPointer { .. } => "set attribute pointer",
            Request::ClearColor { .. } => "set clear color",
            Request::Clear { .. } => "clear",
            Request::SetSampler { .. } => "set sampler",
            Request::DrawTriangleStrip { .. } => "draw triangle strip",
        }
    }
}

impl Clone for Request {
    fn clone(&self) -> (copy: Request)
        ensures
            copy@ == self@,
    {
        match self {
            Request::GenBuffer => Request::GenBuffer,
            Request::BindArrayBuffer { buffer } => Request::BindArrayBuffer { buffer: *buffer },
            Request::UploadQuad => Request::UploadQuad,
            Request::DeleteBuffer { buffer } => Request::DeleteBuffer { buffer: *buffer },
            Request::CreateShader { stage } => Request::CreateShader { stage: *stage },
            Request::ShaderSource { shader, source } => Request::ShaderSource {
                shader: *shader,
                source: source.clone(),
            },
            Request::CompileShader { shader } => Request::CompileShader { shader: *shader },
            Request::CompileStatus { shader } => Request::CompileStatus { shader: *shader },
            Request::ShaderLog { shader } => Request::ShaderLog { shader: *shader },
            Request::DeleteShader { shader } => Request::DeleteShader { shader: *shader },
            Request::CreateProgram => Request::CreateProgram,
            Request::AttachShader { program, shader } => Request::AttachShader {
                program: *program,
                shader: *shader,
            },
            Request::LinkProgram { program } => Request::LinkProgram { program: *program },
            Request::LinkStatus { program } => Request::LinkStatus { program: *program },
            Request::ProgramLog { program } => Request::ProgramLog { program: *program },
            Request::AttribLocation { program, name } => Request::AttribLocation {
                program: *program,
                name: name.clone(),
            },
            Request::UniformLocation { program, name } => Request::UniformLocation {
                program: *program,
                name: name.clone(),
            },
            Request::UseProgram { program } => Request::UseProgram { program: *program },
            Request::DeleteProgram { program } => Request::DeleteProgram { program: *program },
            Request::GenTexture => Request::GenTexture,
            Request::BindTexture { texture } => Request::BindTexture { texture: *texture },
            Request::AllocateTexture { width, height } => Request::AllocateTexture {
                width: *width,
                height: *height,
            },
            Request::DeleteTexture { texture } => Request::DeleteTexture { texture: *texture },
            Request::GenFramebuffer => Request::GenFramebuffer,
            Request::BindFramebuffer { framebuffer } => Request::BindFramebuffer {
                framebuffer: *framebuffer,
            },
            Request::AttachColorTexture { texture } => Request::AttachColorTexture {
                texture: *texture,
            },
            Request::FramebufferStatus => Request::FramebufferStatus,
            Request::DeleteFramebuffer { framebuffer } => Request::DeleteFramebuffer {
                framebuffer: *framebuffer,
            },
            Request::EnableVertexAttrib { index } => Request::EnableVertexAttrib { index: *index },
            Request::DisableVertexAttrib { index } => Request::DisableVertexAttrib {
                index: *index,
            },
            Request::QuadAttribPointer { index } => Request::QuadAttribPointer { index: *index },
            Request::ClearColor { red, green, blue, alpha } => Request::ClearColor {
                red: *red,
                green: *green,
                blue: *blue,
                alpha: *alpha,
            },
            Request::Clear { color, depth } => Request::Clear { color: *color, depth: *depth },
            Request::SetSampler { location, unit } => Request::SetSampler {
                location: *location,
                unit: *unit,
            },
            Request::DrawTriangleStrip { first, count } => Request::DrawTriangleStrip {
                first: *first,
                count: *count,
            },
        }
    }
}

/// The full-screen quad as a triangle strip.
pub open spec fn quad() -> Seq<i8> {
    seq![-1i8, -1i8, 1i8, -1i8, -1i8, 1i8, 1i8, 1i8]
}

/// The data behind [`Request::UploadQuad`]: four vertices of two coordinates
/// each, which cover the square from -1 to 1 in both directions when drawn as
/// a triangle strip.
pub fn quad_vertices() -> (vertices: Vec<i8>)
    ensures
        vertices@ == quad(),
{
    let mut vertices: Vec<i8> = Vec::new();
    vertices.push(-1);
    vertices.push(-1);
    vertices.push(1);
    vertices.push(-1);
    vertices.push(-1);
    vertices.push(1);
    vertices.push(1);
    vertices.push(1);
    assert(vertices@ =~= quad());
    vertices
}

/// What the driver said after one call.
#[derive(Debug, PartialEq, Eq)]
pub struct Reply {
    /// The driver's error state, read right after the call.
    pub error: u32,
    /// The number the call produced: a handle, a flag, a status, or a location
    /// in two's complement. Zero for calls that produce none.
    pub value: u32,
    /// The text the call produced; empty for calls that produce none.
    pub text: String,
}

/// A [`Reply`] as a mathematical value.
pub struct ReplyView {
    pub error: u32,
    pub value: u32,
    pub text: Seq<char>,
}

impl View for Reply {
    type V = ReplyView;

    open spec fn view(&self) -> ReplyView {
        ReplyView { error: self.error, value: self.value, text: self.text@ }
    }
}

impl ReplyView {
    /// The handle in the reply. The driver gives no object the handle 0.
    pub open spec fn handle(self) -> Option<u32> {
        if self.value != 0 {
            Some(self.value)
        } else {
            None
        }
    }

    /// The location in the reply. Locations are non-negative; a negative
    /// number means that the program has no such variable.
    pub open spec fn location(self) -> Option<i32> {
        if self.value <= i32::MAX {
            Some(self.value as i32)
        } else {
            None
        }
    }

    /// The reply read as a flag: every number but zero is true.
    pub open spec fn flag(self) -> bool {
        self.value != 0
    }
}

impl Reply {
    /// The reply read as the handle of a new object, if it holds one.
    pub fn handle(&self) -> (handle: Option<u32>)
        ensures
            handle == self@.handle(),
    {
        if self.value != 0 {
            Some(self.value)
        } else {
            None
        }
    }

    /// The reply read as the location of a variable, if it holds one.
    pub fn location(&self) -> (location: Option<i32>)
        ensures
            location == self@.location(),
    {
        if self.value <= 0x7FFF_FFFF {
            Some(self.value as i32)
        } else {
            None
        }
    }

    /// The reply read as a flag.
    pub fn flag(&self) -> (flag: bool)
        ensures
            flag == self@.flag(),
    {
        self.value != 0
    }
}

/// A list of requests as a sequence of mathematical values.
pub open spec fn views(calls: Seq<Request>) -> Seq<RequestView> {
    calls.map_values(|call: Request| call@)
}

/// A driver object, by kind and handle.
pub enum Resource {
    Buffer(u32),
    Shader(u32),
    Program(u32),
    Texture(u32),
    Framebuffer(u32),
}

impl Resource {
    /// The driver's handle of the object.
    pub open spec fn handle(self) -> u32 {
        match self {
            Resource::Buffer(handle) => handle,
            Resource::Shader(handle) => handle,
            Resource::Program(handle) => handle,
            Resource::Texture(handle) => handle,
            Resource::Framebuffer(handle) => handle,
        }
    }
}

/// The object `resource` as a holding: just that object, or nothing where
/// its handle is 0, the handle of no object.
pub open spec fn holding(resource: Resource) -> Multiset<Resource> {
    if resource.handle() == 0 {
        Multiset::empty()
    } else {
        Multiset::singleton(resource)
    }
}

/// Whether `call` is made to obtain the handle of a new driver object.
pub open spec fn expects_handle(call: RequestView) -> bool {
    call is GenBuffer || call is CreateShader || call is CreateProgram || call is GenTexture
        || call is GenFramebuffer
}

/// The object that the driver hands out in answer to `call`, if any. A call
/// that reports an error or answers without a handle has created nothing.
pub open spec fn created(call: RequestView, reply: ReplyView) -> Option<Resource> {
    if reply.error != NO_ERROR {
        None
    } else {
        match (call, reply.handle()) {
            (RequestView::GenBuffer, Some(handle)) => Some(Resource::Buffer(handle)),
            (RequestView::CreateShader { .. }, Some(handle)) => Some(Resource::Shader(handle)),
            (RequestView::CreateProgram, Some(handle)) => Some(Resource::Program(handle)),
            (RequestView::GenTexture, Some(handle)) => Some(Resource::Texture(handle)),
            (RequestView::GenFramebuffer, Some(handle)) => Some(Resource::Framebuffer(handle)),
            _ => None,
        }
    }
}

/// The object that `call` destroys, if any.
pub open spec fn destroyed(call: RequestView) -> Option<Resource> {
    match call {
        RequestView::DeleteBuffer { buffer } => Some(Resource::Buffer(buffer)),
        RequestView::DeleteShader { shader } => Some(Resource::Shader(shader)),
        RequestView::DeleteProgram { program } => Some(Resource::Program(program)),
        RequestView::DeleteTexture { texture } => Some(Resource::Texture(texture)),
        RequestView::DeleteFramebuffer { framebuffer } => Some(Resource::Framebuffer(framebuffer)),
        _ => None,
    }
}

/// The books of live driver objects after one more answered call: an object
/// handed out is entered once, an object deleted is struck once, and a call
/// on which the driver raises an error changes nothing.
pub open spec fn settle(live: Multiset<Resource>, call: RequestView, reply: ReplyView) -> Multiset<
    Resource,
> {
    if reply.error != NO_ERROR {
        live
    } else {
        match (created(call, reply), destroyed(call)) {
            (Some(resource), _) => live.insert(resource),
            (None, Some(resource)) => live.remove(resource),
            (None, None) => live,
        }
    }
}

/// Objects that stand beside a holding are not touched by a call that
/// destroys only what is in the holding.
pub proof fn lemma_settle_beside(
    beside: Multiset<Resource>,
    live: Multiset<Resource>,
    call: RequestView,
    reply: ReplyView,
)
    requires
        destroyed(call) matches Some(resource) ==> live.count(resource) > 0,
    ensures
        settle(beside.add(live), call, reply) == beside.add(settle(live, call, reply)),
{
    assert(settle(beside.add(live), call, reply) =~= beside.add(settle(live, call, reply)));
}

/// Every object that a list of calls destroys, counted as often as it is destroyed.
pub open spec fn released(calls: Seq<RequestView>) -> Multiset<Resource>
    decreases calls.len(),
{
    if calls.len() == 0 {
        Multiset::empty()
    } else {
        match destroyed(calls.last()) {
            Some(resource) => released(calls.drop_last()).insert(resource),
            None => released(calls.drop_last()),
        }
    }
}

/// Whether a list of calls leaves the driver's objects as they are: none of
/// its calls destroys an object, and none is made to create one.
pub open spec fn touches_no_object(calls: Seq<RequestView>) -> bool {
    forall|i: int|
        0 <= i < calls.len() ==> destroyed(#[trigger] calls[i]) is None && !expects_handle(calls[i])
}

/// The vertex attribute arrays that are enabled after `calls`, given those
/// that were enabled before.
pub open spec fn enabled_after(enabled: Set<u32>, calls: Seq<RequestView>) -> Set<u32>
    decreases calls.len(),
{
    if calls.len() == 0 {
        enabled
    } else {
        let before = enabled_after(enabled, calls.drop_last());
        match calls.last() {
            RequestView::EnableVertexAttrib { index } => before.insert(index),
            RequestView::DisableVertexAttrib { index } => before.remove(index),
            _ => before,
        }
    }
}

/// Running two lists of calls one after the other enables what running the
/// second on the outcome of the first enables.
pub proof fn lemma_enabled_after_concat(
    enabled: Set<u32>,
    first: Seq<RequestView>,
    second: Seq<RequestView>,
)
    ensures
        enabled_after(enabled, first + second) == enabled_after(
            enabled_after(enabled, first),
            second,
        ),
    decreases second.len(),
{
    if second.len() == 0 {
        assert(first + second =~= first);
    } else {
        assert((first + second).drop_last() =~= first + second.drop_last());
        assert((first + second).last() == second.last());
        lemma_enabled_after_concat(enabled, first, second.drop_last());
    }
}

/// Two lists of calls, one after the other, destroy what each destroys.
pub proof fn lemma_released_concat(first: Seq<RequestView>, second: Seq<RequestView>)
    ensures
        released(first + second) == released(first).add(released(second)),
    decreases second.len(),
{
    if second.len() == 0 {
        assert(first + second =~= first);
        assert(released(first).add(Multiset::empty()) =~= released(first));
    } else {
        assert((first + second).drop_last() =~= first + second.drop_last());
        assert((first + second).last() == second.last());
        lemma_released_concat(first, second.drop_last());
        match destroyed(second.last()) {
            Some(resource) => {
                assert(released(first).add(released(second.drop_last())).insert(resource)
                    =~= released(first).add(released(second.drop_last()).insert(resource)));
            },
            None => {},
        }
    }
}

} // verus!
