use vstd::prelude::*;
use crate::extension::views;
use crate::job::Param;
use crate::path::copy_strings;
use crate::route::{mode_of_index, Mode};

verus! {

/// The verdict on the form's two paths before a run: `status` 1 with a
/// message when one is missing, 2 when both are given.
pub struct ParamCheck {
    pub status: i32,
    pub message: String,
}

/// Checks that both paths of the form are filled in, the source first.
pub fn check_search_param(target: &str, saved: &str) -> (r: ParamCheck)
    ensures
        target@.len() == 0 ==> r.status == 1 && r.message@ == "壁纸大文件不能为空"@,
        target@.len() > 0 && saved@.len() == 0 ==> r.status == 1 && r.message@ == "保存地址不能为空"@,
        target@.len() > 0 && saved@.len() > 0 ==> r.status == 2 && r.message@ == Seq::<char>::empty(),
{
    if target.is_empty() {
        return ParamCheck { status: 1, message: String::from_str("壁纸大文件不能为空") };
    }
    if saved.is_empty() {
        return ParamCheck { status: 1, message: String::from_str("保存地址不能为空") };
    }
    ParamCheck { status: 2, message: String::new() }
}

/// The label of a mode in the selection list.
pub open spec fn mode_label(m: Mode) -> Seq<char> {
    match m {
        Mode::PerFolder => "以文件夹分类"@,
        Mode::Merged => "合并到文件夹"@,
        Mode::Both => "分类和合并"@,
    }
}

/// The position of the mode labelled `s`; an unknown label gives 0.
pub open spec fn index_of_label(s: Seq<char>) -> usize {
    if s == mode_label(Mode::PerFolder) {
        0
    } else if s == mode_label(Mode::Merged) {
        1
    } else if s == mode_label(Mode::Both) {
        2
    } else {
        0
    }
}

/// Whether two strings hold the same characters.
pub fn same_text(a: &str, b: &str) -> (r: bool)
    ensures
        r == (a@ == b@),
{
    let n = a.unicode_len();
    if n != b.unicode_len() {
        return false;
    }
    let mut i: usize = 0;
    while i < n
        invariant
            n == a@.len(),
            n == b@.len(),
            i <= n,
            forall|k: int| 0 <= k < i ==> a@[k] == b@[k],
        decreases n - i,
    {
        if a.get_char(i) != b.get_char(i) {
            return false;
        }
        i = i + 1;
    }
    assert(a@ =~= b@);
    true
}

/// The state behind the extraction form.
#[derive(Default)]
pub struct RepkgApp {
    pub target: String,
    pub saved: String,
    pub as_title: bool,
    pub all_combine: bool,
    pub cobo_status: usize,
    pub addition_suffix: Vec<String>,
    pub search_results: Vec<String>,
    pub status_message: String,
    pub message: Option<String>,
}

impl RepkgApp {
    /// The label of the chosen mode.
    pub fn cobo_status_to_str(&self) -> (r: &'static str)
        ensures
            r@ == mode_label(mode_of_index(self.cobo_status)),
    {
        match self.cobo_status {
            1 => "合并到文件夹",
            2 => "分类和合并",
            _ => "以文件夹分类",
        }
    }

    /// The position of the mode with label `state`.
    pub fn str_to_cobo_status(state: &str) -> (r: usize)
        ensures
            r == index_of_label(state@),
    {
        if same_text(state, "以文件夹分类") {
            0
        } else if same_text(state, "合并到文件夹") {
            1
        } else if same_text(state, "分类和合并") {
            2
        } else {
            0
        }
    }

    /// The parameters of a run, as the form holds them.
    pub fn to_param(&self) -> (r: Param)
        ensures
            r.target == self.target,
            r.saved == self.saved,
            r.as_title == self.as_title,
            r.all_combine == self.all_combine,
            r.cobo_status == self.cobo_status,
            views(r.addition_suffix@) == views(self.addition_suffix@),
    {
        Param {
            target: self.target.clone(),
            saved: self.saved.clone(),
            as_title: self.as_title,
            all_combine: self.all_combine,
            cobo_status: self.cobo_status,
            addition_suffix: copy_strings(&self.addition_suffix),
        }
    }
}

/// A sample set of parameters: one package directory and one output directory.
pub fn demo() -> (r: Param)
    ensures
        r.target@ == "C:\\admin\\workplace\\repkg1"@,
        r.saved@ == "C:\\admin\\workplace\\all\\demo"@,
        !r.as_title,
        !r.all_combine,
        r.cobo_status == 0,
        r.addition_suffix@.len() == 0,
{
    Param {
        target: String::from_str("C:\\admin\\workplace\\repkg1"),
        saved: String::from_str("C:\\admin\\workplace\\all\\demo"),
        as_title: false,
        all_combine: false,
        cobo_status: 0,
        addition_suffix: Vec::new(),
    }
}

} // verus!
