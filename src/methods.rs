use vstd::prelude::*;

use crate::error::BridgeError;
use crate::slots::OutSlots;
use crate::value::{coerce_spec, GenericValue, ValueModel, ValueTag};

verus! {

/// A method of the automation object to call: its name and its arguments in
/// declaration order.
pub struct MethodCall {
    pub name: String,
    pub args: Vec<GenericValue>,
}

/// The models of a sequence of values.
pub open spec fn models(args: Seq<GenericValue>) -> Seq<ValueModel> {
    args.map_values(|v: GenericValue| v@)
}

/// The text `v` converts to, where it converts.
pub open spec fn text_of(v: ValueModel) -> Option<Seq<char>> {
    match coerce_spec(v, ValueTag::Text) {
        Some(ValueModel::Text(s)) => Some(s),
        _ => None,
    }
}

/// The 32-bit integer `v` converts to, where it converts.
pub open spec fn int_of(v: ValueModel) -> Option<i32> {
    match coerce_spec(v, ValueTag::Int32) {
        Some(ValueModel::Int32(n)) => Some(n),
        _ => None,
    }
}

fn named(name: &str, args: Vec<GenericValue>) -> (r: MethodCall)
    ensures
        r.name@ == name@,
        r.args@ == args@,
{
    MethodCall { name: String::from_str(name), args }
}

fn read_text(slots: &OutSlots, index: usize) -> (r: Result<String, BridgeError>)
    requires
        index < slots@.len(),
    ensures
        r.is_ok() <==> text_of(slots@[index as int]).is_some(),
        r.is_ok() ==> r.unwrap()@ == text_of(slots@[index as int]).unwrap(),
{
    slots.get(index).to_string()
}

fn read_int(slots: &OutSlots, index: usize) -> (r: Result<i32, BridgeError>)
    requires
        index < slots@.len(),
    ensures
        r.is_ok() <==> int_of(slots@[index as int]).is_some(),
        r.is_ok() ==> r.unwrap() == int_of(slots@[index as int]).unwrap(),
{
    slots.get(index).to_i32()
}

/// `SetPath(path)`.
pub fn set_path_call(path: &str) -> (r: MethodCall)
    ensures
        r.name@ == "SetPath"@,
        models(r.args@) == seq![ValueModel::Text(path@)],
{
    let mut args: Vec<GenericValue> = Vec::new();
    args.push(GenericValue::from_str(path));
    proof {
        assert(models(args@) =~= seq![ValueModel::Text(path@)]);
    }
    named("SetPath", args)
}

/// A method taking one 32-bit integer: `SetErrorMsg(msg)`, `SetThread(tn)`.
pub fn int_call(name: &str, n: i32) -> (r: MethodCall)
    ensures
        r.name@ == name@,
        models(r.args@) == seq![ValueModel::Int32(n)],
{
    let mut args: Vec<GenericValue> = Vec::new();
    args.push(GenericValue::from_i32(n));
    proof {
        assert(models(args@) =~= seq![ValueModel::Int32(n)]);
    }
    named(name, args)
}

/// `GetModulePath(pid, hwnd, mn, kind)`.
pub fn get_module_path_call(pid: i32, hwnd: i32, mn: &str, kind: i32) -> (r: MethodCall)
    ensures
        r.name@ == "GetModulePath"@,
        models(r.args@) == seq![
            ValueModel::Int32(pid),
            ValueModel::Int32(hwnd),
            ValueModel::Text(mn@),
            ValueModel::Int32(kind),
        ],
{
    let mut args: Vec<GenericValue> = Vec::new();
    args.push(GenericValue::from_i32(pid));
    args.push(GenericValue::from_i32(hwnd));
    args.push(GenericValue::from_str(mn));
    args.push(GenericValue::from_i32(kind));
    proof {
        assert(models(args@) =~= seq![
            ValueModel::Int32(pid),
            ValueModel::Int32(hwnd),
            ValueModel::Text(mn@),
            ValueModel::Int32(kind),
        ]);
    }
    named("GetModulePath", args)
}

/// `GetRemoteProcAddress(pid, hwnd, mn, func)`.
pub fn get_remote_proc_address_call(pid: i32, hwnd: i32, mn: &str, func: &str) -> (r: MethodCall)
    ensures
        r.name@ == "GetRemoteProcAddress"@,
        models(r.args@) == seq![
            ValueModel::Int32(pid),
            ValueModel::Int32(hwnd),
            ValueModel::Text(mn@),
            ValueModel::Text(func@),
        ],
{
    let mut args: Vec<GenericValue> = Vec::new();
    args.push(GenericValue::from_i32(pid));
    args.push(GenericValue::from_i32(hwnd));
    args.push(GenericValue::from_str(mn));
    args.push(GenericValue::from_str(func));
    proof {
        assert(models(args@) =~= seq![
            ValueModel::Int32(pid),
            ValueModel::Int32(hwnd),
            ValueModel::Text(mn@),
            ValueModel::Text(func@),
        ]);
    }
    named("GetRemoteProcAddress", args)
}

/// `FindWindow(parent, pro_name, pro_id, class, title, kind, t)`.
pub fn find_window_call(
    parent: i32,
    pro_name: &str,
    pro_id: i32,
    class: &str,
    title: &str,
    kind: i32,
    t: i32,
) -> (r: MethodCall)
    ensures
        r.name@ == "FindWindow"@,
        models(r.args@) == seq![
            ValueModel::Int32(parent),
            ValueModel::Text(pro_name@),
            ValueModel::Int32(pro_id),
            ValueModel::Text(class@),
            ValueModel::Text(title@),
            ValueModel::Int32(kind),
            ValueModel::Int32(t),
        ],
{
    let mut args: Vec<GenericValue> = Vec::new();
    args.push(GenericValue::from_i32(parent));
    args.push(GenericValue::from_str(pro_name));
    args.push(GenericValue::from_i32(pro_id));
    args.push(GenericValue::from_str(class));
    args.push(GenericValue::from_str(title));
    args.push(GenericValue::from_i32(kind));
    args.push(GenericValue::from_i32(t));
    proof {
        assert(models(args@) =~= seq![
            ValueModel::Int32(parent),
            ValueModel::Text(pro_name@),
            ValueModel::Int32(pro_id),
            ValueModel::Text(class@),
            ValueModel::Text(title@),
            ValueModel::Int32(kind),
            ValueModel::Int32(t),
        ]);
    }
    named("FindWindow", args)
}

/// `CreateWindows(x, y, width, height, e_width, e_height, kind)`.
pub fn create_windows_call(
    x: i32,
    y: i32,
    width: i32,
    height: i32,
    e_width: i32,
    e_height: i32,
    kind: i32,
) -> (r: MethodCall)
    ensures
        r.name@ == "CreateWindows"@,
        models(r.args@) == seq![
            ValueModel::Int32(x),
            ValueModel::Int32(y),
            ValueModel::Int32(width),
            ValueModel::Int32(height),
            ValueModel::Int32(e_width),
            ValueModel::Int32(e_height),
            ValueModel::Int32(kind),
        ],
{
    let mut args: Vec<GenericValue> = Vec::new();
    args.push(GenericValue::from_i32(x));
    args.push(GenericValue::from_i32(y));
    args.push(GenericValue::from_i32(width));
    args.push(GenericValue::from_i32(height));
    args.push(GenericValue::from_i32(e_width));
    args.push(GenericValue::from_i32(e_height));
    args.push(GenericValue::from_i32(kind));
    proof {
        assert(models(args@) =~= seq![
            ValueModel::Int32(x),
            ValueModel::Int32(y),
            ValueModel::Int32(width),
            ValueModel::Int32(height),
            ValueModel::Int32(e_width),
            ValueModel::Int32(e_height),
            ValueModel::Int32(kind),
        ]);
    }
    named("CreateWindows", args)
}

/// `KQHouTai(hwnd, screen, keyboard, mouse, flag, kind)`.
pub fn kq_hou_tai_call(
    hwnd: i32,
    screen: &str,
    keyboard: &str,
    mouse: &str,
    flag: &str,
    kind: i32,
) -> (r: MethodCall)
    ensures
        r.name@ == "KQHouTai"@,
        models(r.args@) == seq![
            ValueModel::Int32(hwnd),
            ValueModel::Text(screen@),
            ValueModel::Text(keyboard@),
            ValueModel::Text(mouse@),
            ValueModel::Text(flag@),
            ValueModel::Int32(kind),
        ],
{
    let mut args: Vec<GenericValue> = Vec::new();
    args.push(GenericValue::from_i32(hwnd));
    args.push(GenericValue::from_str(screen));
    args.push(GenericValue::from_str(keyboard));
    args.push(GenericValue::from_str(mouse));
    args.push(GenericValue::from_str(flag));
    args.push(GenericValue::from_i32(kind));
    proof {
        assert(models(args@) =~= seq![
            ValueModel::Int32(hwnd),
            ValueModel::Text(screen@),
            ValueModel::Text(keyboard@),
            ValueModel::Text(mouse@),
            ValueModel::Text(flag@),
            ValueModel::Int32(kind),
        ]);
    }
    named("KQHouTai", args)
}

/// `GetOs(&sv, &svn, &lvbn, &sdir, kind)`: four fresh output slots, then
/// the integer input.
pub fn get_os_call(slots: &mut OutSlots, kind: i32) -> (r: MethodCall)
    requires
        old(slots)@.len() + 4 < usize::MAX,
    ensures
        r.name@ == "GetOs"@,
        final(slots)@ == old(slots)@ + seq![
            ValueModel::Empty,
            ValueModel::Empty,
            ValueModel::Empty,
            ValueModel::Empty,
        ],
        models(r.args@) == seq![
            ValueModel::ByRef(old(slots)@.len()),
            ValueModel::ByRef(old(slots)@.len() + 1),
            ValueModel::ByRef(old(slots)@.len() + 2),
            ValueModel::ByRef(old(slots)@.len() + 3),
            ValueModel::Int32(kind),
        ],
{
    let ghost n = slots@.len();
    let mut args: Vec<GenericValue> = Vec::new();
    args.push(slots.reserve());
    args.push(slots.reserve());
    args.push(slots.reserve());
    args.push(slots.reserve());
    args.push(GenericValue::from_i32(kind));
    proof {
        assert(slots@ =~= old(slots)@ + seq![
            ValueModel::Empty,
            ValueModel::Empty,
            ValueModel::Empty,
            ValueModel::Empty,
        ]);
        assert(models(args@) =~= seq![
            ValueModel::ByRef(n),
            ValueModel::ByRef(n + 1),
            ValueModel::ByRef(n + 2),
            ValueModel::ByRef(n + 3),
            ValueModel::Int32(kind),
        ]);
    }
    named("GetOs", args)
}

/// What `GetOs` wrote into the four slots from `first`: version text,
/// version name, build number and system directory.
pub fn get_os_outputs(slots: &OutSlots, first: usize) -> (r: Result<
    (String, String, i32, String),
    BridgeError,
>)
    requires
        first + 4 <= slots@.len(),
    ensures
        r.is_ok() <==> (text_of(slots@[first as int]).is_some() && text_of(
            slots@[first + 1],
        ).is_some() && int_of(slots@[first + 2]).is_some() && text_of(
            slots@[first + 3],
        ).is_some()),
        r.is_ok() ==> {
            let (sv, svn, lvbn, sdir) = r.unwrap();
            &&& sv@ == text_of(slots@[first as int]).unwrap()
            &&& svn@ == text_of(slots@[first + 1]).unwrap()
            &&& lvbn == int_of(slots@[first + 2]).unwrap()
            &&& sdir@ == text_of(slots@[first + 3]).unwrap()
        },
{
    // the slot count is a usize, so the indices below do not overflow
    let _len = slots.len();
    let sv = read_text(slots, first)?;
    let svn = read_text(slots, first + 1)?;
    let lvbn = read_int(slots, first + 2)?;
    let sdir = read_text(slots, first + 3)?;
    Ok((sv, svn, lvbn, sdir))
}

/// `GetCPU(&kind, &cpu_id)`: two fresh output slots.
pub fn get_cpu_call(slots: &mut OutSlots) -> (r: MethodCall)
    requires
        old(slots)@.len() + 2 < usize::MAX,
    ensures
        r.name@ == "GetCPU"@,
        final(slots)@ == old(slots)@ + seq![ValueModel::Empty, ValueModel::Empty],
        models(r.args@) == seq![
            ValueModel::ByRef(old(slots)@.len()),
            ValueModel::ByRef(old(slots)@.len() + 1),
        ],
{
    let ghost n = slots@.len();
    let mut args: Vec<GenericValue> = Vec::new();
    args.push(slots.reserve());
    args.push(slots.reserve());
    proof {
        assert(slots@ =~= old(slots)@ + seq![ValueModel::Empty, ValueModel::Empty]);
        assert(models(args@) =~= seq![ValueModel::ByRef(n), ValueModel::ByRef(n + 1)]);
    }
    named("GetCPU", args)
}

/// What `GetCPU` wrote into the two slots from `first`: processor kind and
/// processor identifier.
pub fn get_cpu_outputs(slots: &OutSlots, first: usize) -> (r: Result<(String, String), BridgeError>)
    requires
        first + 2 <= slots@.len(),
    ensures
        r.is_ok() <==> (text_of(slots@[first as int]).is_some() && text_of(
            slots@[first + 1],
        ).is_some()),
        r.is_ok() ==> r.unwrap().0@ == text_of(slots@[first as int]).unwrap() && r.unwrap().1@
            == text_of(slots@[first + 1]).unwrap(),
{
    // the slot count is a usize, so the indices below do not overflow
    let _len = slots.len();
    let kind = read_text(slots, first)?;
    let id = read_text(slots, first + 1)?;
    Ok((kind, id))
}

} // verus!
