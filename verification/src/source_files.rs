//! Where the files of a core update land next to the user's core executable.
use vstd::prelude::*;
use crate::elevation::{core_exe_name, is_dll, is_dll_name};
use crate::protected::{safe_name, safe_name_spec};
use crate::paths::{join, lowercase, parent_of, path_join, path_parent, to_lowercase};
use crate::digest::{concat_strs, hex_lower, to_hex_lower};
use crate::service::{join_errors, joined};
use crate::update::outcome_view;
use crate::text::{append_chars, append_vec, chars_of, same_chars, string_of};

verus! {

/// Where a file named `name` goes: the core executable replaces `target`,
/// a DLL goes next to it; any other name is refused.
pub open spec fn destination_of(target: Seq<char>, parent: Seq<char>, name: Seq<char>) -> Option<
    Seq<char>,
> {
    if !safe_name_spec(name) {
        None
    } else if name == core_exe_name() {
        Some(target)
    } else if is_dll_name(name) {
        Some(path_join(parent, name))
    } else {
        None
    }
}

pub open spec fn msg_bad_name() -> Seq<char> {
    "源核心文件名称无效"@
}

pub open spec fn msg_duplicate() -> Seq<char> {
    "源核心更新包含重复文件"@
}

pub open spec fn msg_missing_core() -> Seq<char> {
    "源核心更新缺少 sing-box.exe"@
}

pub open spec fn msg_no_parent() -> Seq<char> {
    "源核心目录无效"@
}

/// The destinations of the first `k` names, or the first reason to refuse
/// them: an invalid name, or a destination that equals an earlier one once
/// both are lowercased.
pub open spec fn destinations_upto(
    target: Seq<char>,
    parent: Seq<char>,
    names: Seq<Seq<char>>,
    k: nat,
) -> Result<Seq<Seq<char>>, Seq<char>>
    decreases k,
{
    if k == 0 {
        Ok(Seq::empty())
    } else {
        match destinations_upto(target, parent, names, (k - 1) as nat) {
            Err(e) => Err(e),
            Ok(ds) => match destination_of(target, parent, names[k - 1]) {
                None => Err(msg_bad_name()),
                Some(d) => if exists|j: int|
                    0 <= j < ds.len() && to_lowercase(#[trigger] ds[j]) == to_lowercase(d) {
                    Err(msg_duplicate())
                } else {
                    Ok(ds.push(d))
                },
            },
        }
    }
}

/// The destinations of an update's files next to `target`, in order, or the
/// reason to refuse the update before anything is replaced.
pub open spec fn destinations_spec(target: Seq<char>, names: Seq<Seq<char>>) -> Result<
    Seq<Seq<char>>,
    Seq<char>,
> {
    match path_parent(target) {
        None => Err(msg_no_parent()),
        Some(parent) => match destinations_upto(target, parent, names, names.len()) {
            Err(e) => Err(e),
            Ok(ds) => if names.contains(core_exe_name()) {
                Ok(ds)
            } else {
                Err(msg_missing_core())
            },
        },
    }
}

proof fn lemma_error_persists(
    target: Seq<char>,
    parent: Seq<char>,
    names: Seq<Seq<char>>,
    k: nat,
    n: nat,
)
    requires
        k <= n,
        destinations_upto(target, parent, names, k) is Err,
    ensures
        destinations_upto(target, parent, names, n) == destinations_upto(target, parent, names, k),
    decreases n - k,
{
    if k < n {
        lemma_error_persists(target, parent, names, k, (n - 1) as nat);
    }
}

pub open spec fn file_names(files: Seq<(String, Vec<u8>)>) -> Seq<Seq<char>> {
    files.map_values(|f: (String, Vec<u8>)| f.0@)
}

/// Computes where each update file goes, refusing invalid names, duplicate
/// destinations (compared lowercased) and updates without the core executable.
#[verifier::loop_isolation(false)]
pub fn destinations(target: &str, files: &[(String, Vec<u8>)]) -> (res: Result<
    Vec<String>,
    String,
>)
    ensures
        match destinations_spec(target@, file_names(files@)) {
            Ok(ds) => res matches Ok(v) && v@.len() == ds.len() && forall|i: int|
                0 <= i < ds.len() ==> (#[trigger] v@[i])@ == ds[i],
            Err(e) => res matches Err(m) && m@ == e,
        },
        res matches Ok(v) ==> v@.len() == files@.len() && (forall|i: int, j: int|
            0 <= i < j < v@.len() ==> to_lowercase((#[trigger] v@[i])@) != to_lowercase(
                (#[trigger] v@[j])@,
            )) && (forall|i: int|
            0 <= i < v@.len() && files@[i].0@ == core_exe_name() ==> (#[trigger] v@[i])@
                == target@),
{
    let ghost names = file_names(files@);
    let parent = match parent_of(target) {
        Some(p) => p,
        None => return Err("源核心目录无效".to_owned()),
    };
    proof {
        reveal_strlit("sing-box.exe");
        assert("sing-box.exe"@ =~= core_exe_name());
    }
    let mut keys: Vec<String> = Vec::new();
    let mut out: Vec<String> = Vec::new();
    let mut core_seen = false;
    let mut i: usize = 0;
    while i < files.len()
        invariant
            names == file_names(files@),
            path_parent(target@) == Some(parent@),
            "sing-box.exe"@ == core_exe_name(),
            i <= files.len(),
            out@.len() == i,
            names.len() == files@.len(),
            destinations_upto(target@, parent@, names, i as nat) matches Ok(ds) && ds.len()
                == out@.len() && (forall|k: int| 0 <= k < ds.len() ==> (#[trigger] out@[k])@
                == ds[k]),
            keys@.len() == out@.len(),
            forall|k: int| 0 <= k < keys@.len() ==> (#[trigger] keys@[k])@ == to_lowercase(
                out@[k]@,
            ),
            forall|k: int, j: int|
                0 <= k < j < out@.len() ==> to_lowercase((#[trigger] out@[k])@) != to_lowercase(
                    (#[trigger] out@[j])@,
                ),
            forall|k: int|
                0 <= k < out@.len() && files@[k].0@ == core_exe_name() ==> (#[trigger] out@[k])@
                    == target@,
            core_seen == names.take(i as int).contains(core_exe_name()),
        decreases files.len() - i,
    {
        let name = files[i].0.as_str();
        assert(names[i as int] == name@);
        let ghost ds = destinations_upto(target@, parent@, names, i as nat)->Ok_0;
        assert(names.take(i + 1) =~= names.take(i as int).push(name@));
        if !safe_name(name) {
            proof {
                lemma_error_persists(target@, parent@, names, (i + 1) as nat, names.len());
            }
            return Err("源核心文件名称无效".to_owned());
        }
        let chars = chars_of(name);
        let destination: String = if same_chars(&chars, "sing-box.exe") {
            core_seen = true;
            target.to_owned()
        } else if is_dll(name) {
            join(parent.as_str(), name)
        } else {
            proof {
                lemma_error_persists(target@, parent@, names, (i + 1) as nat, names.len());
            }
            return Err("源核心文件名称无效".to_owned());
        };
        let key = lowercase(destination.as_str());
        let mut j: usize = 0;
        while j < keys.len()
            invariant
                j <= keys.len() == out@.len() == ds.len(),
                forall|k: int| 0 <= k < keys@.len() ==> (#[trigger] keys@[k])@ == to_lowercase(
                    out@[k]@,
                ),
                forall|k: int| 0 <= k < ds.len() ==> (#[trigger] out@[k])@ == ds[k],
                key@ == to_lowercase(destination@),
                forall|k: int| 0 <= k < j ==> to_lowercase(#[trigger] ds[k]) != key@,
            decreases keys.len() - j,
        {
            if keys[j] == key {
                assert(to_lowercase(ds[j as int]) == to_lowercase(destination@));
                proof {
                    lemma_error_persists(target@, parent@, names, (i + 1) as nat, names.len());
                }
                return Err("源核心更新包含重复文件".to_owned());
            }
            j += 1;
        }
        assert(!exists|j: int| 0 <= j < ds.len() && to_lowercase(#[trigger] ds[j]) == to_lowercase(destination@));
        proof {
            let t = names.take(i as int);
            if name@ != core_exe_name() {
                assert(t.push(name@).contains(core_exe_name()) ==> t.contains(core_exe_name())) by {
                    if t.push(name@).contains(core_exe_name()) {
                        let w = choose|w: int| 0 <= w < t.push(name@).len() && t.push(name@)[w] == core_exe_name();
                        assert(w < t.len());
                        assert(t[w] == core_exe_name());
                    }
                }
            } else {
                assert(t.push(name@)[i as int] == core_exe_name());
            }
            assert(t.contains(core_exe_name()) ==> t.push(name@).contains(core_exe_name())) by {
                if t.contains(core_exe_name()) {
                    let w = choose|w: int| 0 <= w < t.len() && t[w] == core_exe_name();
                    assert(t.push(name@)[w] == core_exe_name());
                }
            }
        }
        out.push(destination);
        keys.push(key);
        i += 1;
    }
    assert(names.take(files.len() as int) =~= names);
    if !core_seen {
        return Err("源核心更新缺少 sing-box.exe".to_owned());
    }
    Ok(out)
}

/// The big-endian bytes of a GUID: its first field as four bytes, its second
/// and third as two bytes each, then its last eight bytes.
pub open spec fn guid_bytes(d1: u32, d2: u16, d3: u16, d4: Seq<u8>) -> Seq<u8> {
    seq![
        (d1 / 0x100_0000) as u8,
        ((d1 / 0x1_0000) % 0x100) as u8,
        ((d1 / 0x100) % 0x100) as u8,
        (d1 % 0x100) as u8,
        (d2 / 0x100) as u8,
        (d2 % 0x100) as u8,
        (d3 / 0x100) as u8,
        (d3 % 0x100) as u8,
    ] + d4
}

/// The name of a temporary file of `kind` next to the core: a hidden
/// `.singboard-` name ending in the 32 lowercase hex digits of a GUID, each
/// field zero-padded to its full width.
pub open spec fn guid_file_name_spec(kind: Seq<char>, d1: u32, d2: u16, d3: u16, d4: Seq<u8>) -> Seq<
    char,
> {
    ".singboard-"@ + kind + seq!['-'] + hex_lower(guid_bytes(d1, d2, d3, d4))
}

/// The temporary file name of `kind` for the GUID with fields `d1` to `d4`.
pub fn guid_file_name(kind: &str, d1: u32, d2: u16, d3: u16, d4: &[u8; 8]) -> (res: String)
    ensures
        res@ == guid_file_name_spec(kind@, d1, d2, d3, d4@),
        res@.len() == 12 + kind@.len() + 32,
{
    let mut bytes: Vec<u8> = Vec::new();
    bytes.push((d1 / 0x100_0000) as u8);
    bytes.push(((d1 / 0x1_0000) % 0x100) as u8);
    bytes.push(((d1 / 0x100) % 0x100) as u8);
    bytes.push((d1 % 0x100) as u8);
    bytes.push((d2 / 0x100) as u8);
    bytes.push((d2 % 0x100) as u8);
    bytes.push((d3 / 0x100) as u8);
    bytes.push((d3 % 0x100) as u8);
    let mut i: usize = 0;
    while i < 8
        invariant
            0 <= i <= 8,
            d4@.len() == 8,
            bytes@ == guid_bytes(d1, d2, d3, d4@).take(8 + i),
        decreases 8 - i,
    {
        bytes.push(d4[i]);
        assert(guid_bytes(d1, d2, d3, d4@).take(8 + i + 1) =~= guid_bytes(d1, d2, d3, d4@).take(
            8 + i,
        ).push(d4@[i as int]));
        i += 1;
    }
    assert(bytes@ =~= guid_bytes(d1, d2, d3, d4@));
    let hex = to_hex_lower(bytes.as_slice());
    let mut out: Vec<char> = Vec::new();
    append_chars(&mut out, ".singboard-");
    append_chars(&mut out, kind);
    out.push('-');
    append_vec(&mut out, &hex);
    proof {
        reveal_strlit(".singboard-");
        assert(out@ =~= guid_file_name_spec(kind@, d1, d2, d3, d4@));
    }
    string_of(&out)
}

/// The report of a file that could not be put back during a rollback.
pub open spec fn restore_error_spec(destination: Seq<char>, error: Seq<char>) -> Seq<char> {
    "恢复源核心文件 "@ + destination + " 失败: "@ + error
}

/// The report of a file that could not be put back during a rollback.
pub fn restore_error(destination: &str, error: &str) -> (res: String)
    ensures
        res@ == restore_error_spec(destination@, error@),
{
    let mut out: Vec<char> = Vec::new();
    append_chars(&mut out, "恢复源核心文件 ");
    append_chars(&mut out, destination);
    append_chars(&mut out, " 失败: ");
    append_chars(&mut out, error);
    assert(out@ =~= "恢复源核心文件 "@ + destination@ + " 失败: "@ + error@);
    string_of(&out)
}

/// The outcome of a rollback that met `errors`, in the order the files were
/// restored: success when there were none, else all of them joined.
pub fn restore_result(errors: &Vec<String>) -> (res: Result<(), String>)
    ensures
        errors@.len() == 0 ==> res is Ok,
        errors@.len() > 0 ==> (res matches Err(e) && e@ == joined(
            errors@.map_values(|e: String| e@),
            "; "@,
        )),
{
    if errors.len() == 0 {
        Ok(())
    } else {
        Err(join_errors(errors))
    }
}

/// The error of a replacement that failed with `error` and was then rolled
/// back with `rollback`: the rollback's own failure, if any, follows it.
pub fn replace_failure(error: &str, rollback: &Result<(), String>) -> (res: String)
    ensures
        rollback is Ok ==> res@ == error@,
        rollback matches Err(r) ==> res@ == error@ + "; "@ + r@,
{
    match rollback {
        Ok(()) => error.to_owned(),
        Err(r) => {
            let a = concat_strs(error, "; ");
            concat_strs(a.as_str(), r.as_str())
        },
    }
}

/// The outcome of a rollback whose failed files were reported as `errors`:
/// success when there were none, else all reports joined.
pub open spec fn restore_outcome(errors: Seq<Seq<char>>) -> Result<(), Seq<char>> {
    if errors.len() == 0 {
        Ok(())
    } else {
        Err(joined(errors, "; "@))
    }
}

/// A rollback of replaced source files in progress. The files are put back
/// from the last one replaced to the first, and a file that cannot be put
/// back is reported without stopping the others.
pub struct Rollback {
    /// How many files are still to be put back; the next one is at index
    /// `remaining - 1` of the replacements.
    pub remaining: usize,
    /// The reports of the files that could not be put back, in the order
    /// they were tried.
    pub errors: Vec<String>,
}

pub struct RollbackView {
    pub remaining: nat,
    pub errors: Seq<Seq<char>>,
}

impl View for Rollback {
    type V = RollbackView;

    open spec fn view(&self) -> RollbackView {
        RollbackView {
            remaining: self.remaining as nat,
            errors: self.errors@.map_values(|e: String| e@),
        }
    }
}

/// The outside work a rollback asks for next.
pub enum RollbackAction {
    /// Put back the replacement at this index: remove the file written there
    /// and move its backup back, when it has one.
    Restore(usize),
    /// The rollback is over, with this outcome.
    Finish(Result<(), String>),
}

pub enum RollbackActionView {
    Restore(nat),
    Finish(Result<(), Seq<char>>),
}

impl View for RollbackAction {
    type V = RollbackActionView;

    open spec fn view(&self) -> RollbackActionView {
        match self {
            RollbackAction::Restore(i) => RollbackActionView::Restore(*i as nat),
            RollbackAction::Finish(r) => RollbackActionView::Finish(outcome_view(*r)),
        }
    }
}

/// The work a rollback in state `s` asks for.
pub open spec fn rollback_action(s: RollbackView) -> RollbackActionView {
    if s.remaining > 0 {
        RollbackActionView::Restore((s.remaining - 1) as nat)
    } else {
        RollbackActionView::Finish(restore_outcome(s.errors))
    }
}

/// The state after the file at index `s.remaining - 1`, whose path is
/// `destination`, was put back with `outcome`.
pub open spec fn rollback_next(s: RollbackView, destination: Seq<char>, outcome: Result<(), Seq<char>>) -> RollbackView {
    RollbackView {
        remaining: (s.remaining - 1) as nat,
        errors: match outcome {
            Ok(_) => s.errors,
            Err(e) => s.errors.push(restore_error_spec(destination, e)),
        },
    }
}

impl Rollback {
    /// Starts the rollback of `count` replaced files: the last one comes first.
    pub fn start(count: usize) -> (res: (Rollback, RollbackAction))
        ensures
            res.0@ == (RollbackView { remaining: count as nat, errors: Seq::empty() }),
            res.1@ == rollback_action(res.0@),
    {
        let errors: Vec<String> = Vec::new();
        let s = Rollback { remaining: count, errors };
        proof {
            assert(s@.errors =~= Seq::<Seq<char>>::empty());
        }
        let a = s.pending();
        (s, a)
    }

    /// The work this rollback asks for.
    pub fn pending(&self) -> (res: RollbackAction)
        ensures
            res@ == rollback_action(self@),
    {
        if self.remaining > 0 {
            RollbackAction::Restore(self.remaining - 1)
        } else {
            RollbackAction::Finish(restore_result(&self.errors))
        }
    }
}

/// One step of a rollback: `outcome` tells how putting back the file it
/// asked for, at `destination`, went. A failure is reported and the rollback
/// carries on with the file before it; after the first file it finishes with
/// every report. A rollback that has finished stays as it is.
pub fn rollback_step(state: Rollback, destination: &str, outcome: Result<(), String>) -> (res: (
    Rollback,
    RollbackAction,
))
    ensures
        state.remaining == 0 ==> res.0@ == state@,
        state.remaining > 0 ==> res.0@ == rollback_next(state@, destination@, outcome_view(outcome)),
        res.1@ == rollback_action(res.0@),
{
    if state.remaining == 0 {
        let a = state.pending();
        return (state, a);
    }
    let Rollback { remaining, mut errors } = state;
    let ghost old_errors = errors@;
    match outcome {
        Ok(()) => {},
        Err(e) => {
            errors.push(restore_error(destination, e.as_str()));
        },
    }
    let t = Rollback { remaining: remaining - 1, errors };
    proof {
        assert(t@.errors =~= rollback_next(state@, destination@, outcome_view(outcome)).errors);
    }
    let a = t.pending();
    (t, a)
}

/// The order of a rollback: it starts with the last file replaced, and every
/// answer, success or failure, moves it to the file before, until the first
/// file was tried and it reports every failure in the order met.
pub proof fn rollback_goes_backwards(s: RollbackView, destination: Seq<char>, outcome: Result<(), Seq<char>>)
    requires
        s.remaining > 0,
    ensures
        rollback_action(RollbackView { remaining: s.remaining, errors: Seq::empty() })
            == RollbackActionView::Restore((s.remaining - 1) as nat),
        ({
            let t = rollback_next(s, destination, outcome);
            &&& s.remaining > 1 ==> rollback_action(t) == RollbackActionView::Restore(
                (s.remaining - 2) as nat,
            )
            &&& s.remaining == 1 ==> rollback_action(t) == RollbackActionView::Finish(
                restore_outcome(t.errors),
            )
            &&& (outcome is Ok ==> t.errors == s.errors)
            &&& (outcome matches Err(e) ==> t.errors == s.errors.push(
                restore_error_spec(destination, e),
            ))
        }),
{
}

} // verus!
