//! The BTRFS monitor: how it is set up, and how it reads the text that `df` and the
//! `btrfs` tool print. Running the tools, and the floating-point arithmetic on what
//! they report, are left to the caller.
use vstd::prelude::*;

use crate::text::{
    chars_of, contains_char, contains_seq, has_char, has_sub, lines, lines_of, string_of,
    string_views, trim_end_char, trim_end_char_exec, views, words, words_of, concat2,
};
use crate::platform::path_exists;

verus! {

#[derive(Debug, Clone)]
pub struct BtrfsMonitor {
    target_path: String,
    training_data_path: Option<String>,
    enable_data_collection: bool,
    use_fragmentation_model: bool,
    fallback_to_heuristic: bool,
}

/// What became of loading the fragmentation model.
#[derive(Debug, Clone)]
pub enum ModelLoad {
    /// No model was to be loaded.
    NotRequested,
    /// The model was loaded and validated.
    Loaded,
    /// Loading failed, for this reason.
    Failed(String),
}

/// The three size columns of the `df` data line, as text.
#[derive(Debug, Clone)]
pub struct DfFields {
    pub total: String,
    pub used: String,
    pub free: String,
}

impl BtrfsMonitor {
    pub closed spec fn spec_target_path(&self) -> Seq<char> {
        self.target_path@
    }

    pub closed spec fn spec_training_data_path(&self) -> Option<Seq<char>> {
        match self.training_data_path {
            Some(p) => Some(p@),
            None => None,
        }
    }

    pub closed spec fn spec_enable_data_collection(&self) -> bool {
        self.enable_data_collection
    }

    pub closed spec fn spec_use_fragmentation_model(&self) -> bool {
        self.use_fragmentation_model
    }

    pub closed spec fn spec_fallback_to_heuristic(&self) -> bool {
        self.fallback_to_heuristic
    }

    /// The model file to load: the configured one when the model is in use.
    pub fn model_to_load(model_path: &Option<String>, use_model: bool) -> (r: Option<String>)
        ensures
            use_model && model_path.is_some() ==> (r matches Some(p) && p@ == model_path->0@),
            !(use_model && model_path.is_some()) ==> r is None,
    {
        if use_model {
            match model_path {
                Some(p) => Some(p.clone()),
                None => None,
            }
        } else {
            None
        }
    }

    /// A monitor for `target_path`, given whether the path exists and what became of
    /// loading the model (if one was to be loaded): a missing path is an error; so is a
    /// failed load, unless the monitor may fall back to the heuristic estimate. The
    /// model is used only when it was asked for and loaded.
    pub fn assemble(
        target_path: &str,
        path_found: bool,
        training_data_path: Option<String>,
        enable_data_collection: bool,
        model: ModelLoad,
        use_model: bool,
        fallback_to_heuristic: bool,
    ) -> (r: Result<BtrfsMonitor, String>)
        ensures
            match r {
                Ok(m) => {
                    &&& path_found
                    &&& !(model is Failed && !fallback_to_heuristic)
                    &&& m.spec_target_path() == target_path@
                    &&& m.spec_training_data_path() == match training_data_path {
                        Some(p) => Some(p@),
                        None => None::<Seq<char>>,
                    }
                    &&& m.spec_enable_data_collection() == enable_data_collection
                    &&& m.spec_use_fragmentation_model() == (use_model && model is Loaded)
                    &&& m.spec_fallback_to_heuristic() == fallback_to_heuristic
                },
                Err(e) => if !path_found {
                    e@ == "Target path does not exist: "@ + target_path@
                } else {
                    model matches ModelLoad::Failed(f) && !fallback_to_heuristic && e@ == f@
                },
            },
    {
        if !path_found {
            return Err(concat2("Target path does not exist: ", target_path));
        }
        let loaded = match model {
            ModelLoad::NotRequested => false,
            ModelLoad::Loaded => true,
            ModelLoad::Failed(e) => {
                if fallback_to_heuristic {
                    false
                } else {
                    return Err(e);
                }
            },
        };
        Ok(BtrfsMonitor {
            target_path: String::from_str(target_path),
            training_data_path,
            enable_data_collection,
            use_fragmentation_model: use_model && loaded,
            fallback_to_heuristic,
        })
    }

    /// A monitor for `target_path` when the path exists on this machine (see
    /// `assemble`); `model` is what became of loading the model.
    pub fn with_data_collection(
        target_path: &str,
        training_data_path: Option<String>,
        enable_data_collection: bool,
        model: ModelLoad,
        use_model: bool,
        fallback_to_heuristic: bool,
    ) -> (r: Result<BtrfsMonitor, String>)
        ensures
            match r {
                Ok(m) => {
                    &&& !(model is Failed && !fallback_to_heuristic)
                    &&& m.spec_target_path() == target_path@
                    &&& m.spec_training_data_path() == match training_data_path {
                        Some(p) => Some(p@),
                        None => None::<Seq<char>>,
                    }
                    &&& m.spec_enable_data_collection() == enable_data_collection
                    &&& m.spec_use_fragmentation_model() == (use_model && model is Loaded)
                    &&& m.spec_fallback_to_heuristic() == fallback_to_heuristic
                },
                Err(e) => e@ == "Target path does not exist: "@ + target_path@ || (
                model matches ModelLoad::Failed(f) && !fallback_to_heuristic && e@ == f@),
            },
    {
        let found = path_exists(target_path);
        Self::assemble(
            target_path,
            found,
            training_data_path,
            enable_data_collection,
            model,
            use_model,
            fallback_to_heuristic,
        )
    }

    /// A monitor for `target_path` with no data collection and no model, falling back
    /// to the heuristic; an error when the path does not exist on this machine.
    pub fn new(target_path: &str) -> (r: Result<BtrfsMonitor, String>)
        ensures
            match r {
                Ok(m) => {
                    &&& m.spec_target_path() == target_path@
                    &&& m.spec_training_data_path() is None
                    &&& !m.spec_enable_data_collection()
                    &&& !m.spec_use_fragmentation_model()
                    &&& m.spec_fallback_to_heuristic()
                },
                Err(e) => e@ == "Target path does not exist: "@ + target_path@,
            },
    {
        Self::with_data_collection(target_path, None, false, ModelLoad::NotRequested, false, true)
    }

    pub fn target_path(&self) -> (p: &str)
        ensures
            p@ == self.spec_target_path(),
    {
        self.target_path.as_str()
    }

    pub fn training_data_path(&self) -> (p: &Option<String>)
        ensures
            match *p {
                Some(s) => self.spec_training_data_path() == Some(s@),
                None => self.spec_training_data_path() is None,
            },
    {
        &self.training_data_path
    }

    pub fn enable_data_collection(&self) -> (b: bool)
        ensures
            b == self.spec_enable_data_collection(),
    {
        self.enable_data_collection
    }

    pub fn use_fragmentation_model(&self) -> (b: bool)
        ensures
            b == self.spec_use_fragmentation_model(),
    {
        self.use_fragmentation_model
    }

    pub fn fallback_to_heuristic(&self) -> (b: bool)
        ensures
            b == self.spec_fallback_to_heuristic(),
    {
        self.fallback_to_heuristic
    }

    /// The size columns of `df` output (`df -BM <path>` on Linux, `df -m <path>` on
    /// macOS): the data line, split on whitespace, gives the total, used and free
    /// sizes; on Linux each loses its trailing `M`s.
    pub fn df_fields(output: &str, macos: bool) -> (r: Result<DfFields, String>)
        ensures
            match r {
                Ok(f) => df_result(output@, macos) == Ok::<_, Seq<char>>((f.total@, f.used@, f.free@)),
                Err(e) => df_result(output@, macos) == Err::<(Seq<char>, Seq<char>, Seq<char>), _>(e@),
            },
    {
        let v = chars_of(output);
        let ls = lines_of(&v);
        let ghost lv = views(ls@);
        assert(lv == lines(output@));
        if ls.len() < 2 {
            return Err(String::from_str("Unexpected df output format"));
        }
        let mut data_idx: usize = 0;
        if macos {
            match first_slash(&ls) {
                Some(i) => {
                    data_idx = i;
                },
                None => {
                    return Err(String::from_str("Could not find data line in df output"));
                },
            }
        } else {
            assert(lv[1] == ls@[1]@);
            assert(ls.len() > 2 ==> lv[2] == ls@[2]@);
            if ls[1].len() > 0 && ls[1][0] == '/' {
                data_idx = 1;
            } else if ls.len() > 2 {
                data_idx = 2;
            } else {
                return Err(String::from_str("Could not parse df output"));
            }
        }
        let line = &ls[data_idx];
        assert(line@ == lv[data_idx as int]);
        assert(df_data_line(lv, macos) == Some(line@));
        let fields = words_of(line);
        assert(fields.len() >= 4 ==> fields@[1]@ == words(line@)[1] && fields@[2]@ == words(line@)[2]
            && fields@[3]@ == words(line@)[3]);
        if fields.len() < 4 {
            return Err(string_of_parts("Unexpected df output format: ", line));
        }
        if macos {
            Ok(DfFields { total: string_of(&fields[1]), used: string_of(&fields[2]), free: string_of(&fields[3]) })
        } else {
            let t = trim_end_char_exec(&fields[1], 'M');
            let u = trim_end_char_exec(&fields[2], 'M');
            let f = trim_end_char_exec(&fields[3], 'M');
            Ok(DfFields { total: string_of(&t), used: string_of(&u), free: string_of(&f) })
        }
    }

    /// Whether `btrfs filesystem usage` output reports metadata use: some line mentions
    /// both `Metadata` and `used`.
    pub fn metadata_usage_reported(output: &str) -> (b: bool)
        ensures
            b == exists|i: int| 0 <= i < lines(output@).len() && metadata_line(#[trigger] lines(output@)[i]),
    {
        let v = chars_of(output);
        let ls = lines_of(&v);
        let meta = chars_of("Metadata");
        let used = chars_of("used");
        let mut i: usize = 0;
        while i < ls.len()
            invariant
                i <= ls.len(),
                views(ls@) == lines(output@),
                meta@ == "Metadata"@,
                used@ == "used"@,
                forall|k: int| 0 <= k < i ==> !metadata_line(#[trigger] lines(output@)[k]),
            decreases ls.len() - i,
        {
            assert(lines(output@)[i as int] == ls@[i as int]@);
            if contains_seq(&ls[i], &meta) && contains_seq(&ls[i], &used) {
                return true;
            }
            i = i + 1;
        }
        false
    }

    /// The numbers that `btrfs filesystem df` output offers as usage percentages, in
    /// order: on each line mentioning both `Data` and `%`, each word ending in `%`,
    /// without its trailing `%`s.
    pub fn percent_candidates(output: &str) -> (r: Vec<String>)
        ensures
            string_views(r@) == candidates_of_lines(lines(output@)),
    {
        let v = chars_of(output);
        let ls = lines_of(&v);
        let data = chars_of("Data");
        let mut r: Vec<String> = Vec::new();
        for i in 0..ls.len()
            invariant
                views(ls@) == lines(output@),
                data@ == "Data"@,
                string_views(r@) == candidates_of_lines(views(ls@).take(i as int)),
        {
            assert(views(ls@).take(i as int + 1).drop_last() =~= views(ls@).take(i as int));
            let line = &ls[i];
            let ghost before = string_views(r@);
            if contains_seq(line, &data) && contains_char(line, '%') {
                let ws = words_of(line);
                let ghost wv = views(ws@);
                let ghost pct = percent_word_fn();
                for j in 0..ws.len()
                    invariant
                        wv == views(ws@),
                        wv == words(line@),
                        pct == percent_word_fn(),
                        string_views(r@) == before + wv.take(j as int).filter(pct).map_values(strip_percent_fn()),
                {
                    let ghost sf = strip_percent_fn();
                    let ghost old_f = wv.take(j as int).filter(pct);
                    proof {
                        crate::text::lemma_filter_take_succ(wv, pct, j as int);
                    }
                    let w = &ws[j];
                    assert(w@ == wv[j as int]);
                    if w.len() > 0 && w[w.len() - 1] == '%' {
                        assert(pct(wv[j as int]));
                        let t = trim_end_char_exec(w, '%');
                        let ts = string_of(&t);
                        proof {
                            crate::text::lemma_map_values_push(old_f, wv[j as int], sf);
                            crate::text::lemma_string_views_push(r@, ts);
                            assert(sf(wv[j as int]) == ts@);
                        }
                        r.push(ts);
                        assert(string_views(r@) =~= before + wv.take(j as int + 1).filter(pct).map_values(sf));
                    } else {
                        assert(!pct(wv[j as int]));
                    }
                }
                assert(wv.take(ws.len() as int) =~= wv);
                assert(line@ == views(ls@)[i as int]);
                assert(string_views(r@) =~= before + line_candidates(line@));
            } else {
                assert(line@ == views(ls@)[i as int]);
                assert(string_views(r@) =~= before + line_candidates(line@));
            }
        }
        assert(views(ls@).take(ls.len() as int) =~= views(ls@));
        r
    }
}

/// The index of the first line starting with `/`.
fn first_slash(ls: &Vec<Vec<char>>) -> (r: Option<usize>)
    ensures
        first_slash_line(views(ls@)) == match r {
            Some(i) => Some(i as int),
            None => None::<int>,
        },
        r matches Some(i) ==> i < ls.len(),
{
    let ghost lv = views(ls@);
    let mut i: usize = 0;
    while i < ls.len()
        invariant
            i <= ls.len(),
            lv == views(ls@),
            forall|k: int| 0 <= k < i ==> !starts_with_slash(#[trigger] lv[k]),
        decreases ls.len() - i,
    {
        assert(lv[i as int] == ls@[i as int]@);
        if ls[i].len() > 0 && ls[i][0] == '/' {
            assert(starts_with_slash(lv[i as int]));
            let ghost c = choose|c: int|
                0 <= c < lv.len() && starts_with_slash(lv[c]) && forall|k: int|
                    0 <= k < c ==> !starts_with_slash(#[trigger] lv[k]);
            assert(c == i) by {
                if c < i {
                    assert(!starts_with_slash(lv[c]));
                }
                if c > i {
                    assert(!starts_with_slash(lv[i as int]));
                }
            }
            return Some(i);
        }
        i = i + 1;
    }
    None
}

fn string_of_parts(head: &str, tail: &Vec<char>) -> (s: String)
    ensures
        s@ == head@ + tail@,
{
    crate::text::string_after(head, tail)
}

pub open spec fn starts_with_slash(l: Seq<char>) -> bool {
    l.len() > 0 && l[0] == '/'
}

/// The index of the first line starting with `/`.
pub open spec fn first_slash_line(ls: Seq<Seq<char>>) -> Option<int> {
    if exists|i: int| 0 <= i < ls.len() && starts_with_slash(ls[i]) {
        Some(
            choose|i: int|
                0 <= i < ls.len() && starts_with_slash(ls[i]) && forall|k: int|
                    0 <= k < i ==> !starts_with_slash(#[trigger] ls[k]),
        )
    } else {
        None
    }
}

/// The data line of `df` output: on macOS the first line starting with `/`; elsewhere
/// the second line when it starts with `/`, else the third, if there is one.
pub open spec fn df_data_line(ls: Seq<Seq<char>>, macos: bool) -> Option<Seq<char>> {
    if macos {
        match first_slash_line(ls) {
            Some(i) => Some(ls[i]),
            None => None,
        }
    } else if starts_with_slash(ls[1]) {
        Some(ls[1])
    } else if ls.len() > 2 {
        Some(ls[2])
    } else {
        None
    }
}

/// What `df_fields` reads from `df` output: the total, used and free columns, or the
/// message of the first problem.
pub open spec fn df_result(output: Seq<char>, macos: bool) -> Result<(Seq<char>, Seq<char>, Seq<char>), Seq<char>> {
    let ls = lines(output);
    if ls.len() < 2 {
        Err("Unexpected df output format"@)
    } else {
        let line = df_data_line(ls, macos);
        match line {
            None => if macos {
                Err("Could not find data line in df output"@)
            } else {
                Err("Could not parse df output"@)
            },
            Some(l) => {
                let f = words(l);
                if f.len() < 4 {
                    Err("Unexpected df output format: "@ + l)
                } else if macos {
                    Ok((f[1], f[2], f[3]))
                } else {
                    Ok((trim_end_char(f[1], 'M'), trim_end_char(f[2], 'M'), trim_end_char(f[3], 'M')))
                }
            },
        }
    }
}

pub open spec fn metadata_line(l: Seq<char>) -> bool {
    has_sub(l, "Metadata"@) && has_sub(l, "used"@)
}

/// The percentage candidates of one line of `btrfs filesystem df` output.
pub open spec fn line_candidates(l: Seq<char>) -> Seq<Seq<char>> {
    if has_sub(l, "Data"@) && has_char(l, '%') {
        words(l).filter(percent_word_fn()).map_values(strip_percent_fn())
    } else {
        Seq::empty()
    }
}

pub open spec fn percent_word_fn() -> spec_fn(Seq<char>) -> bool {
    |w: Seq<char>| w.len() > 0 && w.last() == '%'
}

pub open spec fn strip_percent_fn() -> spec_fn(Seq<char>) -> Seq<char> {
    |w: Seq<char>| trim_end_char(w, '%')
}

/// The percentage candidates of all lines, in order.
pub open spec fn candidates_of_lines(ls: Seq<Seq<char>>) -> Seq<Seq<char>>
    decreases ls.len(),
{
    if ls.len() == 0 {
        Seq::empty()
    } else {
        candidates_of_lines(ls.drop_last()) + line_candidates(ls.last())
    }
}

} // verus!
