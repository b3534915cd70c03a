//! Building a bundle as an ordered list of filesystem operations, and a
//! model of the filesystem against which their effect is stated.

use vstd::prelude::*;
use crate::layout::{BundleLayout, LayoutView, layout_of};
use crate::path::is_plain_file_name;

verus! {

/// What a path holds.
pub enum Node {
    Directory,
    /// A file written from text.
    Text(Seq<char>),
    /// A file of bytes.
    Binary(Seq<u8>),
}

/// `p` is `root` or lies beneath it.
pub open spec fn within(p: Seq<char>, root: Seq<char>) -> bool {
    p == root || (p.len() > root.len() && p.subrange(0, root.len() as int) == root && p[root.len()
        as int] == '/')
}

/// A filesystem operation, on paths seen as their characters.
pub enum FsStep {
    RemoveTree(Seq<char>),
    MakeDir(Seq<char>),
    CopyFile(Seq<char>, Seq<char>),
    WriteText(Seq<char>, Seq<char>),
}

/// A filesystem operation that a build asks for.
#[derive(Clone, Debug, PartialEq, Eq)]
pub enum FsOp {
    /// Remove the directory at the path and everything beneath it, where it
    /// exists; a file there makes it fail.
    RemoveTree(String),
    /// Create the directory, with any missing ancestors.
    CreateDir(String),
    /// Copy the bytes of the first file into the second.
    CopyFile(String, String),
    /// Write the text into the file, replacing what it held.
    WriteFile(String, String),
}

impl View for FsOp {
    type V = FsStep;

    open spec fn view(&self) -> FsStep {
        match self {
            FsOp::RemoveTree(p) => FsStep::RemoveTree(p@),
            FsOp::CreateDir(p) => FsStep::MakeDir(p@),
            FsOp::CopyFile(from, to) => FsStep::CopyFile(from@, to@),
            FsOp::WriteFile(p, text) => FsStep::WriteText(p@, text@),
        }
    }
}

/// A list of operations, seen as steps.
pub open spec fn steps_of(ops: Seq<FsOp>) -> Seq<FsStep> {
    ops.map_values(|o: FsOp| o@)
}

/// `fs` holds a directory at `p`.
pub open spec fn is_dir(fs: Map<Seq<char>, Node>, p: Seq<char>) -> bool {
    fs.contains_key(p) && fs[p] == Node::Directory
}

/// `fs` holds a file at `p`.
pub open spec fn is_file(fs: Map<Seq<char>, Node>, p: Seq<char>) -> bool {
    fs.contains_key(p) && fs[p] != Node::Directory
}

/// The filesystem after one step, or `None` where the step fails.
pub open spec fn apply_step(fs: Map<Seq<char>, Node>, step: FsStep) -> Option<Map<Seq<char>, Node>> {
    match step {
        FsStep::RemoveTree(root) => if is_file(fs, root) {
            None
        } else {
            Some(
                Map::new(
                    |p: Seq<char>| fs.contains_key(p) && !within(p, root),
                    |p: Seq<char>| fs[p],
                ),
            )
        },
        FsStep::MakeDir(p) => if is_file(fs, p) {
            None
        } else {
            Some(fs.insert(p, Node::Directory))
        },
        FsStep::CopyFile(from, to) => if is_file(fs, from) && !is_dir(fs, to) {
            Some(fs.insert(to, fs[from]))
        } else {
            None
        },
        FsStep::WriteText(p, text) => if is_dir(fs, p) {
            None
        } else {
            Some(fs.insert(p, Node::Text(text)))
        },
    }
}

/// The filesystem after the steps in order, or `None` where one fails.
pub open spec fn run_steps(fs: Map<Seq<char>, Node>, steps: Seq<FsStep>) -> Option<
    Map<Seq<char>, Node>,
>
    decreases steps.len(),
{
    if steps.len() == 0 {
        Some(fs)
    } else {
        match apply_step(fs, steps[0]) {
            Some(next) => run_steps(next, steps.drop_first()),
            None => None,
        }
    }
}

/// The steps that build the bundle of `layout`: remove what stood there,
/// make the directories, copy the executable at `exe_path`, and write the
/// manifest.
pub open spec fn bundle_steps(layout: LayoutView, exe_path: Seq<char>, manifest: Seq<char>) -> Seq<
    FsStep,
> {
    seq![
        FsStep::RemoveTree(layout.bundle),
        FsStep::MakeDir(layout.bundle),
        FsStep::MakeDir(layout.contents),
        FsStep::MakeDir(layout.macos),
        FsStep::MakeDir(layout.resources),
        FsStep::CopyFile(exe_path, layout.executable),
        FsStep::WriteText(layout.info_plist, manifest),
    ]
}

/// The operations that build the bundle of `layout`.
pub fn bundle_ops(layout: &BundleLayout, exe_path: &str, manifest: String) -> (r: Vec<FsOp>)
    ensures
        steps_of(r@) == bundle_steps(layout@, exe_path@, manifest@),
{
    let r = vec![
        FsOp::RemoveTree(layout.bundle.clone()),
        FsOp::CreateDir(layout.bundle.clone()),
        FsOp::CreateDir(layout.contents.clone()),
        FsOp::CreateDir(layout.macos.clone()),
        FsOp::CreateDir(layout.resources.clone()),
        FsOp::CopyFile(exe_path.to_owned(), layout.executable.clone()),
        FsOp::WriteFile(layout.info_plist.clone(), manifest),
    ];
    assert(steps_of(r@) =~= bundle_steps(layout@, exe_path@, manifest@));
    r
}

/// What is left of `fs` once `root` and everything beneath it is gone.
pub open spec fn without_tree(fs: Map<Seq<char>, Node>, root: Seq<char>) -> Map<Seq<char>, Node> {
    Map::new(|p: Seq<char>| fs.contains_key(p) && !within(p, root), |p: Seq<char>| fs[p])
}

/// The filesystem once the bundle of `layout` has been built over `fs`,
/// with `exe` as the executable's node and `manifest` as the manifest text.
pub open spec fn built_fs(
    fs: Map<Seq<char>, Node>,
    layout: LayoutView,
    exe: Node,
    manifest: Seq<char>,
) -> Map<Seq<char>, Node> {
    without_tree(fs, layout.bundle).insert(layout.bundle, Node::Directory).insert(
        layout.contents,
        Node::Directory,
    ).insert(layout.macos, Node::Directory).insert(layout.resources, Node::Directory).insert(
        layout.executable,
        exe,
    ).insert(layout.info_plist, Node::Text(manifest))
}

proof fn lemma_within_append(root: Seq<char>, rest: Seq<char>)
    requires
        rest.len() > 0,
        rest[0] == '/',
    ensures
        within(root + rest, root),
{
    assert((root + rest).subrange(0, root.len() as int) =~= root);
}

proof fn lemma_layout_spelled_out(install_dir: Seq<char>, name: Seq<char>, exe_name: Seq<char>)
    requires
        is_plain_file_name(exe_name),
    ensures
        ({
            let l = layout_of(install_dir, name, exe_name);
            &&& l.contents == l.bundle + seq!['/'] + "Contents"@
            &&& l.macos == l.contents + seq!['/'] + "MacOS"@
            &&& l.resources == l.contents + seq!['/'] + "Resources"@
            &&& l.info_plist == l.contents + seq!['/'] + "Info.plist"@
            &&& l.executable == l.macos + seq!['/'] + exe_name
        }),
{
    reveal_strlit(".app");
    reveal_strlit("Contents");
    reveal_strlit("MacOS");
    reveal_strlit("Resources");
    reveal_strlit("Info.plist");
    let l = layout_of(install_dir, name, exe_name);
    assert((name + ".app"@).last() == 'p');
    assert(l.bundle.last() == 'p');
    assert((l.bundle + seq!['/'] + "Contents"@).last() == 's');
    assert((l.contents + seq!['/'] + "MacOS"@).last() == 'S');
}

proof fn lemma_suffixes_within(
    b: Seq<char>,
    c: Seq<char>,
    m: Seq<char>,
    r: Seq<char>,
    i: Seq<char>,
    e: Seq<char>,
    exe_name: Seq<char>,
)
    requires
        c == b + seq!['/'] + "Contents"@,
        m == c + seq!['/'] + "MacOS"@,
        r == c + seq!['/'] + "Resources"@,
        i == c + seq!['/'] + "Info.plist"@,
        e == m + seq!['/'] + exe_name,
    ensures
        within(c, b),
        within(m, b),
        within(r, b),
        within(i, b),
        within(e, b),
{
    let tc = seq!['/'] + "Contents"@;
    assert(c =~= b + tc);
    lemma_within_append(b, tc);
    assert(m =~= b + (tc + seq!['/'] + "MacOS"@));
    lemma_within_append(b, tc + seq!['/'] + "MacOS"@);
    assert(r =~= b + (tc + seq!['/'] + "Resources"@));
    lemma_within_append(b, tc + seq!['/'] + "Resources"@);
    assert(i =~= b + (tc + seq!['/'] + "Info.plist"@));
    lemma_within_append(b, tc + seq!['/'] + "Info.plist"@);
    assert(e =~= b + (tc + seq!['/'] + "MacOS"@ + seq!['/'] + exe_name));
    lemma_within_append(b, tc + seq!['/'] + "MacOS"@ + seq!['/'] + exe_name);
}

proof fn lemma_suffixes_distinct(
    b: Seq<char>,
    c: Seq<char>,
    m: Seq<char>,
    r: Seq<char>,
    i: Seq<char>,
    e: Seq<char>,
    exe_name: Seq<char>,
)
    requires
        exe_name.len() > 0,
        c == b + seq!['/'] + "Contents"@,
        m == c + seq!['/'] + "MacOS"@,
        r == c + seq!['/'] + "Resources"@,
        i == c + seq!['/'] + "Info.plist"@,
        e == m + seq!['/'] + exe_name,
    ensures
        b != c && b != m && b != r && b != e && b != i,
        c != m && c != r && c != e && c != i,
        m != r && m != e && m != i,
        r != e && r != i,
        e != i,
{
    reveal_strlit("Contents");
    reveal_strlit("MacOS");
    reveal_strlit("Resources");
    reveal_strlit("Info.plist");
    let n = c.len() as int;
    assert(m[n + 1] == 'M');
    assert(e[n + 1] == 'M');
    assert(r[n + 1] == 'R');
    assert(i[n + 1] == 'I');
}

/// Every path of a layout lies in its bundle directory, and no two of them
/// are the same.
pub proof fn lemma_layout_shape(install_dir: Seq<char>, name: Seq<char>, exe_name: Seq<char>)
    requires
        is_plain_file_name(exe_name),
    ensures
        ({
            let l = layout_of(install_dir, name, exe_name);
            &&& within(l.bundle, l.bundle)
            &&& within(l.contents, l.bundle)
            &&& within(l.macos, l.bundle)
            &&& within(l.resources, l.bundle)
            &&& within(l.executable, l.bundle)
            &&& within(l.info_plist, l.bundle)
            &&& l.bundle != l.contents && l.bundle != l.macos && l.bundle != l.resources
            &&& l.bundle != l.executable && l.bundle != l.info_plist
            &&& l.contents != l.macos && l.contents != l.resources && l.contents != l.executable
            &&& l.contents != l.info_plist
            &&& l.macos != l.resources && l.macos != l.executable && l.macos != l.info_plist
            &&& l.resources != l.executable && l.resources != l.info_plist
            &&& l.executable != l.info_plist
        }),
{
    let l = layout_of(install_dir, name, exe_name);
    lemma_layout_spelled_out(install_dir, name, exe_name);
    lemma_suffixes_within(l.bundle, l.contents, l.macos, l.resources, l.info_plist, l.executable, exe_name);
    lemma_suffixes_distinct(l.bundle, l.contents, l.macos, l.resources, l.info_plist, l.executable, exe_name);
}

/// Building the bundle of `name` under `install_dir` over `fs` succeeds
/// exactly when the executable at `exe_path` is a file outside the bundle
/// and no file stands where the bundle goes, and then leaves `built_fs`.
pub proof fn lemma_bundle_steps_effect(
    fs: Map<Seq<char>, Node>,
    install_dir: Seq<char>,
    name: Seq<char>,
    exe_name: Seq<char>,
    exe_path: Seq<char>,
    manifest: Seq<char>,
)
    requires
        is_plain_file_name(exe_name),
    ensures
        ({
            let l = layout_of(install_dir, name, exe_name);
            let r = run_steps(fs, bundle_steps(l, exe_path, manifest));
            &&& r is Some <==> is_file(fs, exe_path) && !within(exe_path, l.bundle) && !is_file(
                fs,
                l.bundle,
            )
            &&& r is Some ==> r == Some(built_fs(fs, l, fs[exe_path], manifest))
        }),
{
    let l = layout_of(install_dir, name, exe_name);
    lemma_layout_shape(install_dir, name, exe_name);
    let s = bundle_steps(l, exe_path, manifest);
    let f0 = without_tree(fs, l.bundle);
    let f1 = f0.insert(l.bundle, Node::Directory);
    let f2 = f1.insert(l.contents, Node::Directory);
    let f3 = f2.insert(l.macos, Node::Directory);
    let f4 = f3.insert(l.resources, Node::Directory);
    let f5 = f4.insert(l.executable, fs[exe_path]);
    let f6 = f5.insert(l.info_plist, Node::Text(manifest));
    if is_file(fs, l.bundle) {
        assert(apply_step(fs, s[0]) is None);
        assert(run_steps(fs, s) is None);
    } else {
        assert(apply_step(fs, s[0]) == Some(f0));
        assert(!f0.contains_key(l.contents));
        assert(!f0.contains_key(l.macos));
        assert(!f0.contains_key(l.resources));
        assert(!f0.contains_key(l.executable));
        assert(!f0.contains_key(l.info_plist));
        if within(exe_path, l.bundle) {
            assert(!is_file(f4, exe_path));
        } else {
            assert(f4.contains_key(exe_path) == fs.contains_key(exe_path));
            assert(f4.contains_key(exe_path) ==> f4[exe_path] == fs[exe_path]);
        }
        let t1 = s.drop_first();
        let t2 = t1.drop_first();
        let t3 = t2.drop_first();
        let t4 = t3.drop_first();
        let t5 = t4.drop_first();
        let t6 = t5.drop_first();
        let t7 = t6.drop_first();
        assert(apply_step(f0, t1[0]) == Some(f1));
        assert(apply_step(f1, t2[0]) == Some(f2));
        assert(apply_step(f2, t3[0]) == Some(f3));
        assert(apply_step(f3, t4[0]) == Some(f4));
        assert(run_steps(fs, s) == run_steps(f4, t5));
        if !(is_file(fs, exe_path) && !within(exe_path, l.bundle)) {
            assert(apply_step(f4, t5[0]) is None);
            assert(run_steps(fs, s) is None);
        } else {
            assert(t7.len() == 0);
            assert(run_steps(f6, t7) == Some(f6));
            assert(apply_step(f5, t6[0]) == Some(f6));
            assert(run_steps(f5, t6) == Some(f6));
            assert(apply_step(f4, t5[0]) == Some(f5));
            assert(run_steps(f4, t5) == Some(f6));
            assert(apply_step(f3, t4[0]) == Some(f4));
            assert(run_steps(f3, t4) == Some(f6));
            assert(apply_step(f2, t3[0]) == Some(f3));
            assert(run_steps(f2, t3) == Some(f6));
            assert(apply_step(f1, t2[0]) == Some(f2));
            assert(run_steps(f1, t2) == Some(f6));
            assert(apply_step(f0, t1[0]) == Some(f1));
            assert(run_steps(f0, t1) == Some(f6));
            assert(run_steps(fs, s) == Some(f6));
        }
    }
}

} // verus!
