//! Pipeline nodes. Each node type is a thin, `Clone`able handle onto the C++
//! node owned by its [`Pipeline`]; the [`Node`] trait carries what every node
//! shares (identity, port introspection, port lookup by name).
//!
//! A [`NodeHandle`] carries the node's port table as the shim listed it when
//! the handle was made: every input and output with its group, its name and
//! the shim handle of the port. Port lookups answer from that table; a node
//! whose ports have changed since is looked at through
//! [`NodeHandle::with_ports`], with the table the shim lists now.

mod camera;
mod detection_network;
mod gate;
mod imu;
mod neural_network;
mod stereo_depth;
mod sync;
mod video_encoder;

pub use camera::{opt_size, Camera};
pub use detection_network::DetectionNetwork;
pub use gate::Gate;
pub use imu::Imu;
pub use neural_network::NeuralNetwork;
pub use stereo_depth::{PostProcessing, StereoDepth};
pub use sync::Sync;
pub use video_encoder::VideoEncoder;

use std::sync::Arc;

use vstd::prelude::*;
use vstd::string::StringSliceAdditionalSpecFns;
use vstd::utf8::encode_utf8;

use crate::error::{cstring, nul_end, nul_free, DepthaiError, Result};
use crate::message::{AnyMessage, Message};
use crate::pipeline::Pipeline;
use crate::port::{Input, Output};

verus! {

/// The index of the first `c` in `s`, or `s.len()` when there is none.
pub open spec fn find_char(s: Seq<char>, c: char) -> int
    decreases s.len(),
{
    if s.len() == 0 {
        0
    } else if s[0] == c {
        0
    } else {
        1 + find_char(s.drop_first(), c)
    }
}

/// `find_char` is the first index holding `c`.
pub proof fn lemma_find_char_at(s: Seq<char>, c: char, j: int)
    requires
        0 <= j <= s.len(),
        forall|k: int| 0 <= k < j ==> s[k] != c,
        j < s.len() ==> s[j] == c,
    ensures
        find_char(s, c) == j,
    decreases s.len(),
{
    if j > 0 {
        let t = s.drop_first();
        assert(s[0] != c);
        assert forall|k: int| 0 <= k < j - 1 implies #[trigger] t[k] != c by {
            assert(t[k] == s[k + 1]);
        }
        lemma_find_char_at(t, c, j - 1);
    }
}

/// `find_char` lies in `0..=s.len()`, and no `c` comes before it.
pub proof fn lemma_find_char(s: Seq<char>, c: char)
    ensures
        0 <= find_char(s, c) <= s.len(),
        forall|k: int| 0 <= k < find_char(s, c) ==> s[k] != c,
        find_char(s, c) < s.len() ==> s[find_char(s, c)] == c,
    decreases s.len(),
{
    if s.len() > 0 && s[0] != c {
        let t = s.drop_first();
        lemma_find_char(t, c);
        assert forall|k: int| 0 <= k < find_char(s, c) implies s[k] != c by {
            if k > 0 {
                assert(s[k] == t[k - 1]);
            }
        }
    }
}

/// The group of a port spec: what precedes its first `/` (empty when there is
/// none, which means the default group).
pub open spec fn port_group(spec: Seq<char>) -> Seq<char> {
    let i = find_char(spec, '/');
    if i < spec.len() {
        spec.take(i)
    } else {
        seq![]
    }
}

/// The name of a port spec: what follows its first `/` (all of it when there
/// is none).
pub open spec fn port_name(spec: Seq<char>) -> Seq<char> {
    let i = find_char(spec, '/');
    if i < spec.len() {
        spec.skip(i + 1)
    } else {
        spec
    }
}

/// Split a `"group/name"` port spec (as [`Node::output_names`] emits) into its
/// parts; a bare name means the default group.
pub fn split_port<'a>(spec: &'a str) -> (r: (&'a str, &'a str))
    ensures
        r.0@ == port_group(spec@),
        r.1@ == port_name(spec@),
{
    let n = spec.unicode_len();
    let mut i: usize = 0;
    while i < n
        invariant
            n == spec@.len(),
            i <= n,
            forall|k: int| 0 <= k < i ==> spec@[k] != '/',
        decreases n - i,
    {
        if spec.get_char(i) == '/' {
            proof {
                lemma_find_char_at(spec@, '/', i as int);
            }
            return (spec.substring_char(0, i), spec.substring_char(i + 1, n));
        }
        i = i + 1;
    }
    proof {
        lemma_find_char_at(spec@, '/', n as int);
    }
    assert(spec@.subrange(0, n as int) =~= spec@);
    (spec.substring_char(0, 0), spec.substring_char(0, n))
}

/// A port spec is its group, a `/`, and its name when it names a group; and
/// the group holds no `/`.
pub proof fn lemma_split_port_rejoins(spec: Seq<char>)
    ensures
        !port_group(spec).contains('/'),
        find_char(spec, '/') < spec.len() ==> port_group(spec) + seq!['/'] + port_name(spec)
            == spec,
        find_char(spec, '/') == spec.len() ==> port_group(spec).len() == 0 && port_name(spec)
            == spec,
{
    lemma_find_char(spec, '/');
    let i = find_char(spec, '/');
    if i < spec.len() {
        assert(spec.take(i) + seq!['/'] + spec.skip(i + 1) =~= spec);
        assert forall|k: int| 0 <= k < port_group(spec).len() implies port_group(spec)[k]
            != '/' by {
            assert(port_group(spec)[k] == spec[k]);
        }
    }
}

/// A port of a node as the shim lists it: its group, its name and the shim
/// handle of the port.
#[derive(Debug)]
pub struct PortEntry {
    pub group: String,
    pub name: String,
    pub handle: u64,
}

/// The contents of a [`PortEntry`].
pub ghost struct PortView {
    pub group: Seq<char>,
    pub name: Seq<char>,
    pub handle: u64,
}

impl View for PortEntry {
    type V = PortView;

    open spec fn view(&self) -> PortView {
        PortView { group: self.group@, name: self.name@, handle: self.handle }
    }
}

/// The contents of each entry of a port table.
pub open spec fn port_views(ports: Seq<PortEntry>) -> Seq<PortView> {
    ports.map_values(|p: PortEntry| p@)
}

/// The index of the first port of `ports` with this group and name, or
/// `ports.len()` when there is none.
pub open spec fn port_index(ports: Seq<PortView>, group: Seq<char>, name: Seq<char>) -> int
    decreases ports.len(),
{
    if ports.len() == 0 {
        0
    } else if ports[0].group == group && ports[0].name == name {
        0
    } else {
        1 + port_index(ports.drop_first(), group, name)
    }
}

/// `port_index` is the first index of a port with this group and name.
pub proof fn lemma_port_index_at(ports: Seq<PortView>, group: Seq<char>, name: Seq<char>, j: int)
    requires
        0 <= j <= ports.len(),
        forall|k: int| 0 <= k < j ==> !(ports[k].group == group && ports[k].name == name),
        j < ports.len() ==> ports[j].group == group && ports[j].name == name,
    ensures
        port_index(ports, group, name) == j,
    decreases ports.len(),
{
    if j > 0 {
        let t = ports.drop_first();
        assert(!(ports[0].group == group && ports[0].name == name));
        assert forall|k: int| 0 <= k < j - 1 implies !(#[trigger] t[k].group == group && t[k].name
            == name) by {
            assert(t[k] == ports[k + 1]);
        }
        lemma_port_index_at(t, group, name, j - 1);
    }
}

/// `port_index` lies in `0..=ports.len()`, no earlier port matches, and the
/// port there matches.
pub proof fn lemma_port_index(ports: Seq<PortView>, group: Seq<char>, name: Seq<char>)
    ensures
        0 <= port_index(ports, group, name) <= ports.len(),
        forall|k: int|
            0 <= k < port_index(ports, group, name) ==> !(#[trigger] ports[k].group == group
                && ports[k].name == name),
        port_index(ports, group, name) < ports.len() ==> ports[port_index(ports, group, name)].group
            == group && ports[port_index(ports, group, name)].name == name,
    decreases ports.len(),
{
    if ports.len() > 0 && !(ports[0].group == group && ports[0].name == name) {
        let t = ports.drop_first();
        lemma_port_index(t, group, name);
        assert forall|k: int| 0 <= k < port_index(ports, group, name) implies !(
        #[trigger] ports[k].group == group && ports[k].name == name) by {
            if k > 0 {
                assert(ports[k] == t[k - 1]);
            }
        }
    }
}

/// Every label a node lists leads back to a port: the label of a port whose
/// group holds no `/` splits into that group and name, and looking them up
/// finds a port, this very one when no earlier port has the same group and
/// name.
pub proof fn lemma_listed_port_is_found(ports: Seq<PortView>, k: int)
    requires
        0 <= k < ports.len(),
        !ports[k].group.contains('/'),
    ensures
        port_group(port_label(ports[k])) == ports[k].group,
        port_name(port_label(ports[k])) == ports[k].name,
        find_port(ports, ports[k].group, ports[k].name) is Some,
        (forall|j: int|
            0 <= j < k ==> !(#[trigger] ports[j].group == ports[k].group && ports[j].name
                == ports[k].name)) ==> find_port(ports, ports[k].group, ports[k].name) == Some(
            ports[k].handle,
        ),
{
    let g = ports[k].group;
    let n = ports[k].name;
    let label = port_label(ports[k]);
    assert forall|i: int| 0 <= i < g.len() implies label[i] != '/' by {
        assert(label[i] == g[i]);
        if g[i] == '/' {
            assert(g.contains('/'));
        }
    }
    assert(label[g.len() as int] == '/');
    lemma_find_char_at(label, '/', g.len() as int);
    assert(label.take(g.len() as int) =~= g);
    assert(label.skip(g.len() + 1int) =~= n);
    lemma_port_index(ports, g, n);
    if (forall|j: int| 0 <= j < k ==> !(#[trigger] ports[j].group == g && ports[j].name == n)) {
        lemma_port_index_at(ports, g, n, k);
    }
}

/// The handle of the first port of `ports` with this group and name.
pub open spec fn find_port(ports: Seq<PortView>, group: Seq<char>, name: Seq<char>) -> Option<u64> {
    let i = port_index(ports, group, name);
    if 0 <= i < ports.len() {
        Some(ports[i].handle)
    } else {
        None
    }
}

/// The handle of the first port in `ports` with this group and name.
fn find_in(ports: &Vec<PortEntry>, group: &String, name: &String) -> (r: Option<u64>)
    ensures
        r == find_port(port_views(ports@), group@, name@),
{
    let ghost views = port_views(ports@);
    let mut i: usize = 0;
    while i < ports.len()
        invariant
            views == port_views(ports@),
            i <= ports@.len(),
            forall|k: int| 0 <= k < i ==> !(views[k].group == group@ && views[k].name == name@),
        decreases ports@.len() - i,
    {
        let p = &ports[i];
        if p.group.eq(group) && p.name.eq(name) {
            proof {
                lemma_port_index_at(views, group@, name@, i as int);
            }
            return Some(p.handle);
        }
        i = i + 1;
    }
    proof {
        lemma_port_index_at(views, group@, name@, i as int);
    }
    None
}

/// The label `"group/name"` under which the shim lists a port.
pub open spec fn port_label(p: PortView) -> Seq<char> {
    p.group + seq!['/'] + p.name
}

/// The labels of every port of a table, in order.
pub open spec fn port_labels(ports: Seq<PortView>) -> Seq<Seq<char>> {
    ports.map_values(|p: PortView| port_label(p))
}

/// The labels of the ports of `ports`, in order.
fn labels_of(ports: &Vec<PortEntry>) -> (r: Vec<String>)
    ensures
        r@.map_values(|s: String| s@) == port_labels(port_views(ports@)),
{
    let mut out: Vec<String> = Vec::new();
    let mut i: usize = 0;
    while i < ports.len()
        invariant
            i <= ports@.len(),
            out@.map_values(|s: String| s@) == port_labels(port_views(ports@)).take(i as int),
        decreases ports@.len() - i,
    {
        let p = &ports[i];
        let mut label = String::new();
        label.append(p.group.as_str());
        label.append("/");
        label.append(p.name.as_str());
        proof {
            reveal_strlit("/");
        }
        assert(label@ == port_label(p@));
        assert(port_views(ports@)[i as int] == p@);
        let ghost prev = out@.map_values(|s: String| s@);
        out.push(label);
        assert(out@.map_values(|s: String| s@) =~= prev.push(port_label(p@)));
        assert(out@.map_values(|s: String| s@) =~= port_labels(port_views(ports@)).take(i + 1));
        i = i + 1;
    }
    assert(port_labels(port_views(ports@)).take(i as int) =~= port_labels(port_views(ports@)));
    out
}

/// The group and the name of `spec` can be handed to the shim as C strings:
/// neither holds a NUL.
pub open spec fn port_args_ok(spec: Seq<char>) -> bool {
    nul_free(encode_utf8(port_group(spec))) && nul_free(encode_utf8(port_name(spec)))
}

/// The error a spec with a NUL is refused with: the NUL of the group when it
/// has one, else the NUL of the name.
pub open spec fn is_port_arg_error(spec: Seq<char>, e: DepthaiError) -> bool {
    let g = encode_utf8(port_group(spec));
    let n = encode_utf8(port_name(spec));
    if !nul_free(g) {
        e matches DepthaiError::Nul { position, bytes } && position == nul_end(g) && bytes@ == g
    } else {
        e matches DepthaiError::Nul { position, bytes } && position == nul_end(n) && bytes@ == n
    }
}

/// The error a missing fixed port is reported with.
pub open spec fn is_missing_port_error(
    node: NodeView,
    kind: Seq<char>,
    name: Seq<char>,
    e: DepthaiError,
) -> bool {
    e matches DepthaiError::MissingPort { node: n, kind: k, name: p } && n@ == node.node_type_name
        && k@ == kind && p@ == name
}

/// What looking `spec` up among the outputs of `node` answers.
pub open spec fn output_lookup_post<M: Message>(
    node: NodeView,
    spec: Seq<char>,
    r: Result<Option<Output<M>>>,
) -> bool {
    &&& (r is Err <==> !port_args_ok(spec))
    &&& (r matches Err(e) ==> is_port_arg_error(spec, e))
    &&& (r matches Ok(found) ==> match find_port(node.outputs, port_group(spec), port_name(spec)) {
        Some(h) => found matches Some(o) && o.id() == h && o.node_view() == node,
        None => found is None,
    })
}

/// What looking `spec` up among the inputs of `node` answers.
pub open spec fn input_lookup_post(node: NodeView, spec: Seq<char>, r: Result<Option<Input>>) -> bool {
    &&& (r is Err <==> !port_args_ok(spec))
    &&& (r matches Err(e) ==> is_port_arg_error(spec, e))
    &&& (r matches Ok(found) ==> match find_port(node.inputs, port_group(spec), port_name(spec)) {
        Some(h) => found matches Some(i) && i.id() == h && i.node_view() == node,
        None => found is None,
    })
}

/// What asking `node` for its fixed output `name` answers: the port, or
/// [`DepthaiError::MissingPort`] when the node has none by that name.
pub open spec fn output_required_post<M: Message>(
    node: NodeView,
    name: Seq<char>,
    r: Result<Output<M>>,
) -> bool {
    if !port_args_ok(name) {
        r matches Err(e) && is_port_arg_error(name, e)
    } else {
        match find_port(node.outputs, port_group(name), port_name(name)) {
            Some(h) => r matches Ok(o) && o.id() == h && o.node_view() == node,
            None => r matches Err(e) && is_missing_port_error(node, "output"@, name, e),
        }
    }
}

/// What asking `node` for its fixed input `name` answers: the port, or
/// [`DepthaiError::MissingPort`] when the node has none by that name.
pub open spec fn input_required_post(node: NodeView, name: Seq<char>, r: Result<Input>) -> bool {
    if !port_args_ok(name) {
        r matches Err(e) && is_port_arg_error(name, e)
    } else {
        match find_port(node.inputs, port_group(name), port_name(name)) {
            Some(h) => r matches Ok(i) && i.id() == h && i.node_view() == node,
            None => r matches Err(e) && is_missing_port_error(node, "input"@, name, e),
        }
    }
}

/// The contents of a [`NodeHandle`].
pub ghost struct NodeView {
    pub handle: u64,
    pub node_type_name: Seq<char>,
    pub pipeline: Pipeline,
    pub inputs: Seq<PortView>,
    pub outputs: Seq<PortView>,
}

#[derive(Debug)]
struct NodeInner {
    handle: u64,
    node_type_name: String,
    /// The pipeline (and through it the device) the node belongs to.
    pipeline: Pipeline,
    inputs: Vec<PortEntry>,
    outputs: Vec<PortEntry>,
}

/// An untyped handle to any node: the shim handle of the node, its C++ type
/// name, its pipeline and its port table. The typed node structs wrap one of
/// these. Cloning shares it.
#[derive(Debug)]
pub struct NodeHandle {
    inner: Arc<NodeInner>,
}

impl View for NodeHandle {
    type V = NodeView;

    closed spec fn view(&self) -> NodeView {
        NodeView {
            handle: self.inner.handle,
            node_type_name: self.inner.node_type_name@,
            pipeline: self.inner.pipeline,
            inputs: port_views(self.inner.inputs@),
            outputs: port_views(self.inner.outputs@),
        }
    }
}

impl Clone for NodeHandle {
    fn clone(&self) -> (r: NodeHandle)
        ensures
            r@ == self@,
    {
        NodeHandle { inner: self.inner.clone() }
    }
}

impl NodeHandle {
    /// The node the shim handle `handle` is, of C++ type `node_type_name`, in
    /// `pipeline`, with the inputs and outputs the shim lists for it.
    pub fn new(
        handle: u64,
        node_type_name: String,
        pipeline: Pipeline,
        inputs: Vec<PortEntry>,
        outputs: Vec<PortEntry>,
    ) -> (n: NodeHandle)
        ensures
            n@ == (NodeView {
                handle,
                node_type_name: node_type_name@,
                pipeline,
                inputs: port_views(inputs@),
                outputs: port_views(outputs@),
            }),
    {
        NodeHandle { inner: Arc::new(NodeInner { handle, node_type_name, pipeline, inputs, outputs }) }
    }

    /// This node with the port table the shim lists for it now (ports are
    /// added after creation: a Sync node's inputs, a camera's requested
    /// streams): the same handle, type name and pipeline.
    pub fn with_ports(&self, inputs: Vec<PortEntry>, outputs: Vec<PortEntry>) -> (n: NodeHandle)
        ensures
            n@ == (NodeView {
                handle: self@.handle,
                node_type_name: self@.node_type_name,
                pipeline: self@.pipeline,
                inputs: port_views(inputs@),
                outputs: port_views(outputs@),
            }),
    {
        NodeHandle::new(
            self.inner.handle,
            self.inner.node_type_name.clone(),
            self.inner.pipeline,
            inputs,
            outputs,
        )
    }

    /// The shim handle of this node.
    pub fn handle(&self) -> (h: u64)
        ensures
            h == self@.handle,
    {
        self.inner.handle
    }

    pub fn pipeline(&self) -> (p: &Pipeline)
        ensures
            *p == self@.pipeline,
    {
        &self.inner.pipeline
    }

    /// The C++ node type name (e.g. `"Camera"`).
    pub fn node_type_name(&self) -> (s: String)
        ensures
            s@ == self@.node_type_name,
    {
        self.inner.node_type_name.clone()
    }

    /// Every output as `"group/name"`.
    pub fn output_names(&self) -> (names: Vec<String>)
        ensures
            names@.map_values(|s: String| s@) == port_labels(self@.outputs),
    {
        labels_of(&self.inner.outputs)
    }

    /// Every input as `"group/name"`.
    pub fn input_names(&self) -> (names: Vec<String>)
        ensures
            names@.map_values(|s: String| s@) == port_labels(self@.inputs),
    {
        labels_of(&self.inner.inputs)
    }

    /// `Node::getOutputRef(group, name)`, typed as `M`. `spec` is `"name"`
    /// (default group) or `"group/name"` as [`output_names`](Self::output_names)
    /// emits. `Ok(None)` when absent.
    pub fn output<M: Message>(&self, spec: &str) -> (r: Result<Option<Output<M>>>)
        ensures
            output_lookup_post(self@, spec@, r),
    {
        let (group, name) = split_port(spec);
        let _g = cstring(group)?;
        let _n = cstring(name)?;
        let g = group.to_owned();
        let n = name.to_owned();
        match find_in(&self.inner.outputs, &g, &n) {
            Some(h) => Ok(Some(Output::from_handle(self.clone(), h))),
            None => Ok(None),
        }
    }

    /// [`output`](Self::output) untyped.
    pub fn output_by_name(&self, spec: &str) -> (r: Result<Option<Output<AnyMessage>>>)
        ensures
            output_lookup_post(self@, spec@, r),
    {
        self.output(spec)
    }

    /// `Node::getInputRef(group, name)`; `spec` as for [`output`](Self::output).
    /// `Ok(None)` when absent.
    pub fn input_by_name(&self, spec: &str) -> (r: Result<Option<Input>>)
        ensures
            input_lookup_post(self@, spec@, r),
    {
        let (group, name) = split_port(spec);
        let _g = cstring(group)?;
        let _n = cstring(name)?;
        let g = group.to_owned();
        let n = name.to_owned();
        match find_in(&self.inner.inputs, &g, &n) {
            Some(h) => Ok(Some(Input::from_handle(self.clone(), h))),
            None => Ok(None),
        }
    }

    /// A fixed output that the node type guarantees exists.
    pub fn output_required<M: Message>(&self, name: &str) -> (r: Result<Output<M>>)
        ensures
            output_required_post(self@, name@, r),
    {
        match self.output(name)? {
            Some(o) => Ok(o),
            None => Err(self.missing_port("output", name)),
        }
    }

    /// A fixed input that the node type guarantees exists.
    pub fn input_required(&self, name: &str) -> (r: Result<Input>)
        ensures
            input_required_post(self@, name@, r),
    {
        match self.input_by_name(name)? {
            Some(i) => Ok(i),
            None => Err(self.missing_port("input", name)),
        }
    }

    fn missing_port(&self, kind: &'static str, name: &str) -> (e: DepthaiError)
        ensures
            is_missing_port_error(self@, kind@, name@, e),
    {
        DepthaiError::MissingPort { node: self.node_type_name(), kind, name: name.to_owned() }
    }
}

/// Shared surface of every typed node.
pub trait Node {
    /// The node handle this typed node wraps.
    spec fn node_view(&self) -> NodeView;

    fn handle(&self) -> (h: &NodeHandle)
        ensures
            h@ == self.node_view(),
    ;

    fn node_type_name(&self) -> (s: String)
        ensures
            s@ == self.node_view().node_type_name,
    {
        self.handle().node_type_name()
    }

    fn output_names(&self) -> (names: Vec<String>)
        ensures
            names@.map_values(|s: String| s@) == port_labels(self.node_view().outputs),
    {
        self.handle().output_names()
    }

    fn input_names(&self) -> (names: Vec<String>)
        ensures
            names@.map_values(|s: String| s@) == port_labels(self.node_view().inputs),
    {
        self.handle().input_names()
    }

    fn output_by_name(&self, spec: &str) -> (r: Result<Option<Output<AnyMessage>>>)
        ensures
            output_lookup_post(self.node_view(), spec@, r),
    {
        self.handle().output_by_name(spec)
    }

    fn input_by_name(&self, spec: &str) -> (r: Result<Option<Input>>)
        ensures
            input_lookup_post(self.node_view(), spec@, r),
    {
        self.handle().input_by_name(spec)
    }

    fn pipeline(&self) -> (p: &Pipeline)
        ensures
            *p == self.node_view().pipeline,
    {
        self.handle().pipeline()
    }
}

impl Node for NodeHandle {
    open spec fn node_view(&self) -> NodeView {
        self@
    }

    fn handle(&self) -> (h: &NodeHandle) {
        self
    }
}

/// A node type: a typed view of a [`NodeHandle`] of that C++ type.
pub trait NodeType: Node + Sized {
    /// The typed node over `handle`.
    fn from_handle(handle: NodeHandle) -> (n: Self)
        ensures
            n.node_view() == handle@,
    ;
}

} // verus!
