//! Hardware identification: classifying vendor and model out of the
//! text an external profiling utility reports.
//!
//! Invoking that utility and cutting its line-oriented output into the
//! candidate strings is the application's work; every decision made on
//! those strings — substring tests, vendor classification, the
//! discrete-GPU preference — is verified here.

use vstd::prelude::*;

verus! {

/// `t` occurs in `s` starting at position `i`.
pub open spec fn occurs_at(s: Seq<char>, t: Seq<char>, i: int) -> bool {
    0 <= i && i + t.len() <= s.len() && s.subrange(i, i + t.len()) == t
}

/// `t` occurs somewhere in `s`.
pub open spec fn contains_str(s: Seq<char>, t: Seq<char>) -> bool {
    exists|i: int| occurs_at(s, t, i)
}

/// Substring test, the workhorse of every classification below.
pub fn str_contains(s: &str, t: &str) -> (r: bool)
    ensures
        r == contains_str(s@, t@),
{
    let n = s.unicode_len();
    let m = t.unicode_len();
    if m > n {
        proof {
            assert(forall|i: int| !occurs_at(s@, t@, i));
        }
        return false;
    }
    if m == 0 {
        proof {
            assert(s@.subrange(0, 0) =~= t@);
            assert(occurs_at(s@, t@, 0));
        }
        return true;
    }
    let mut i: usize = 0;
    while i <= n - m
        invariant
            n == s@.len(),
            m == t@.len(),
            0 < m <= n,
            i <= n - m + 1,
            forall|j: int| 0 <= j < i ==> !occurs_at(s@, t@, j),
        decreases n - i,
    {
        let mut k: usize = 0;
        let mut all_equal: bool = true;
        proof {
            assert(s@.subrange(i as int, i as int) =~= t@.subrange(0, 0));
        }
        while k < m
            invariant_except_break
                n == s@.len(),
                m == t@.len(),
                i + m <= n,
                k <= m,
                all_equal,
                s@.subrange(i as int, i as int + k as int) == t@.subrange(0, k as int),
            ensures
                all_equal ==> k == m && s@.subrange(i as int, i as int + m as int) == t@.subrange(
                    0,
                    m as int,
                ),
                !all_equal ==> !occurs_at(s@, t@, i as int),
            decreases m - k,
        {
            let ghost sk = s@.subrange(i as int, i as int + k as int);
            let ghost tk = t@.subrange(0, k as int);
            let sc = s.get_char(i + k);
            let tc = t.get_char(k);
            if sc != tc {
                all_equal = false;
                proof {
                    let ghost whole = s@.subrange(i as int, i as int + m as int);
                    assert(!occurs_at(s@, t@, i as int)) by {
                        if whole == t@ {
                            assert(s@[i + k] == whole[k as int]);
                            assert(t@[k as int] == whole[k as int]);
                        }
                    }
                }
                break ;
            }
            proof {
                assert(s@.subrange(i as int, i as int + k as int + 1) =~= sk.push(s@[i + k]));
                assert(t@.subrange(0, k as int + 1) =~= tk.push(t@[k as int]));
            }
            k = k + 1;
        }
        if all_equal {
            proof {
                assert(t@.subrange(0, m as int) =~= t@);
                assert(occurs_at(s@, t@, i as int));
            }
            return true;
        }
        proof {
            assert(forall|j: int| 0 <= j < i + 1 ==> !occurs_at(s@, t@, j));
        }
        i = i + 1;
    }
    proof {
        assert(forall|j: int| !occurs_at(s@, t@, j)) by {
            assert forall|j: int| occurs_at(s@, t@, j) implies false by {
                assert(0 <= j <= n - m);
            }
        }
    }
    false
}

/// Character-for-character string equality.
pub fn str_eq(s: &str, t: &str) -> (r: bool)
    ensures
        r == (s@ == t@),
{
    let n = s.unicode_len();
    if n != t.unicode_len() {
        return false;
    }
    let mut k: usize = 0;
    while k < n
        invariant
            n == s@.len(),
            n == t@.len(),
            k <= n,
            forall|j: int| 0 <= j < k ==> s@[j] == t@[j],
        decreases n - k,
    {
        if s.get_char(k) != t.get_char(k) {
            return false;
        }
        k = k + 1;
    }
    proof {
        assert(s@ =~= t@);
    }
    true
}

/// The GPU vendor read off a model string, first match winning:
/// AMD or Radeon; NVIDIA or GeForce; Intel; Apple; otherwise Unknown.
pub open spec fn spec_gpu_vendor(model: Seq<char>) -> Seq<char> {
    if contains_str(model, "AMD"@) || contains_str(model, "Radeon"@) {
        "AMD"@
    } else if contains_str(model, "NVIDIA"@) || contains_str(model, "GeForce"@) {
        "NVIDIA"@
    } else if contains_str(model, "Intel"@) {
        "Intel"@
    } else if contains_str(model, "Apple"@) {
        "Apple"@
    } else {
        "Unknown"@
    }
}

pub fn gpu_vendor(model: &str) -> (r: String)
    ensures
        r@ == spec_gpu_vendor(model@),
{
    if str_contains(model, "AMD") || str_contains(model, "Radeon") {
        "AMD".to_owned()
    } else if str_contains(model, "NVIDIA") || str_contains(model, "GeForce") {
        "NVIDIA".to_owned()
    } else if str_contains(model, "Intel") {
        "Intel".to_owned()
    } else if str_contains(model, "Apple") {
        "Apple".to_owned()
    } else {
        "Unknown".to_owned()
    }
}

/// The GPU model names a vendor this classification knows.
pub open spec fn spec_gpu_vendor_known(model: Seq<char>) -> bool {
    ||| contains_str(model, "AMD"@)
    ||| contains_str(model, "Radeon"@)
    ||| contains_str(model, "NVIDIA"@)
    ||| contains_str(model, "GeForce"@)
    ||| contains_str(model, "Intel"@)
    ||| contains_str(model, "Apple"@)
}

fn gpu_vendor_known(model: &str) -> (r: bool)
    ensures
        r == spec_gpu_vendor_known(model@),
{
    str_contains(model, "AMD") || str_contains(model, "Radeon") || str_contains(model, "NVIDIA")
        || str_contains(model, "GeForce") || str_contains(model, "Intel") || str_contains(
        model,
        "Apple",
    )
}

/// The CPU vendor read off the brand string: Intel; AMD; Apple;
/// otherwise Unknown.
pub open spec fn spec_cpu_vendor(brand: Seq<char>) -> Seq<char> {
    if contains_str(brand, "Intel"@) {
        "Intel"@
    } else if contains_str(brand, "AMD"@) {
        "AMD"@
    } else if contains_str(brand, "Apple"@) {
        "Apple"@
    } else {
        "Unknown"@
    }
}

pub fn cpu_vendor(brand: &str) -> (r: String)
    ensures
        r@ == spec_cpu_vendor(brand@),
{
    if str_contains(brand, "Intel") {
        "Intel".to_owned()
    } else if str_contains(brand, "AMD") {
        "AMD".to_owned()
    } else if str_contains(brand, "Apple") {
        "Apple".to_owned()
    } else {
        "Unknown".to_owned()
    }
}

/// A discrete (non-integrated) GPU model: GeForce or NVIDIA models; a
/// Radeon that is neither an Intel nor a marked integrated part; an
/// AMD that is not a Radeon Pro.
pub open spec fn spec_is_discrete_gpu(m: Seq<char>) -> bool {
    ||| contains_str(m, "GeForce"@)
    ||| contains_str(m, "NVIDIA"@)
    ||| (contains_str(m, "Radeon"@) && !contains_str(m, "Intel"@) && !contains_str(
        m,
        "Integrated"@,
    ))
    ||| (contains_str(m, "AMD"@) && !contains_str(m, "AMD Radeon Pro"@))
}

pub fn is_discrete_gpu(model: &str) -> (r: bool)
    ensures
        r == spec_is_discrete_gpu(model@),
{
    if str_contains(model, "GeForce") || str_contains(model, "NVIDIA") {
        return true;
    }
    if str_contains(model, "Radeon") && !str_contains(model, "Intel") && !str_contains(
        model,
        "Integrated",
    ) {
        return true;
    }
    str_contains(model, "AMD") && !str_contains(model, "AMD Radeon Pro")
}

/// The views of a sequence of owned strings.
pub open spec fn views_of(ms: Seq<String>) -> Seq<Seq<char>> {
    ms.map_values(|s: String| s@)
}

/// The first discrete model among the candidates, if any.
pub open spec fn spec_first_discrete_gpu(ms: Seq<Seq<char>>) -> Option<Seq<char>>
    decreases ms.len(),
{
    if ms.len() == 0 {
        None
    } else if spec_is_discrete_gpu(ms[0]) {
        Some(ms[0])
    } else {
        spec_first_discrete_gpu(ms.skip(1))
    }
}

/// The model choice among the chipset model candidates, in the order
/// reported: the first discrete model wins outright; without one, the
/// first candidate; without any candidate, "Unknown GPU". The flag
/// says whether the choice is a discrete part.
pub open spec fn spec_chosen_gpu_model(ms: Seq<Seq<char>>) -> (Seq<char>, bool) {
    match spec_first_discrete_gpu(ms) {
        Some(m) => (m, true),
        None => if ms.len() > 0 {
            (ms[0], false)
        } else {
            ("Unknown GPU"@, false)
        },
    }
}

fn find_discrete_gpu(models: &Vec<String>) -> (r: Option<String>)
    ensures
        match r {
            Some(m) => spec_first_discrete_gpu(views_of(models@)) == Some(m@),
            None => spec_first_discrete_gpu(views_of(models@)) is None,
        },
{
    let ghost vs = views_of(models@);
    let mut i: usize = 0;
    proof {
        assert(vs.skip(0) =~= vs);
    }
    while i < models.len()
        invariant
            vs == views_of(models@),
            i <= models@.len(),
            vs.len() == models@.len(),
            spec_first_discrete_gpu(vs) == spec_first_discrete_gpu(vs.skip(i as int)),
        decreases models@.len() - i,
    {
        proof {
            assert(vs.skip(i as int)[0] == vs[i as int]);
            assert(vs.skip(i as int).skip(1) =~= vs.skip(i as int + 1));
        }
        if is_discrete_gpu(models[i].as_str()) {
            return Some(models[i].clone());
        }
        i = i + 1;
    }
    None
}

/// One GPU's identification, as reported to the front end.
pub struct GpuInfo {
    pub vendor: String,
    pub model: String,
}

/// The reported model label: an integrated part of a known vendor is
/// marked "Integrated"; a discrete part or an unclassifiable model
/// keeps its name bare.
pub open spec fn spec_gpu_label(model: Seq<char>, is_discrete: bool) -> Seq<char> {
    if !is_discrete && spec_gpu_vendor_known(model) {
        "Integrated "@ + model
    } else {
        model
    }
}

/// Classifies the candidate chipset model strings, in the order the
/// external utility reported them, into the GPU's vendor and model
/// label.
pub fn gpu_info_from_models(models: &Vec<String>) -> (r: GpuInfo)
    ensures
        ({
            let chosen = spec_chosen_gpu_model(views_of(models@));
            r.vendor@ == spec_gpu_vendor(chosen.0) && r.model@ == spec_gpu_label(
                chosen.0,
                chosen.1,
            )
        }),
{
    let (model, is_discrete): (String, bool) = match find_discrete_gpu(models) {
        Some(m) => (m, true),
        None => {
            if models.len() > 0 {
                proof {
                    assert(views_of(models@)[0] == models@[0]@);
                }
                (models[0].clone(), false)
            } else {
                ("Unknown GPU".to_owned(), false)
            }
        },
    };
    let vendor = gpu_vendor(model.as_str());
    let known = gpu_vendor_known(model.as_str());
    let label: String = if !is_discrete && known {
        let mut l = "Integrated ".to_owned();
        l.append(model.as_str());
        l
    } else {
        model
    };
    GpuInfo { vendor, model: label }
}

// ---------------------------------------------------------------------
// CPU model designation
// ---------------------------------------------------------------------

/// A token that begins an Intel model designation: an i-series name,
/// or Xeon, Celeron, Pentium.
pub open spec fn spec_intel_model_start(t: Seq<char>) -> bool {
    ||| (t.len() > 0 && t[0] == 'i')
    ||| t == "Xeon"@
    ||| t == "Celeron"@
    ||| t == "Pentium"@
}

/// A token that begins an AMD model designation: Ryzen, EPYC, Athlon.
pub open spec fn spec_amd_model_start(t: Seq<char>) -> bool {
    t == "Ryzen"@ || t == "EPYC"@ || t == "Athlon"@
}

/// A token that ends the designation: a clock marker or the word CPU.
pub open spec fn spec_model_end(t: Seq<char>) -> bool {
    contains_str(t, "@"@) || t == "CPU"@
}

pub open spec fn intel_start_pred() -> spec_fn(Seq<char>) -> bool {
    |t: Seq<char>| spec_intel_model_start(t)
}

pub open spec fn amd_start_pred() -> spec_fn(Seq<char>) -> bool {
    |t: Seq<char>| spec_amd_model_start(t)
}

/// The model designation tokens: everything from the first start
/// token (inclusive) up to the first end token (exclusive); nothing
/// when no start token occurs.
pub open spec fn spec_model_tokens(
    ts: Seq<Seq<char>>,
    start: spec_fn(Seq<char>) -> bool,
    found: bool,
) -> Seq<Seq<char>>
    decreases ts.len(),
{
    if ts.len() == 0 {
        Seq::<Seq<char>>::empty()
    } else {
        let now_found = found || start(ts[0]);
        if now_found {
            if spec_model_end(ts[0]) {
                Seq::<Seq<char>>::empty()
            } else {
                seq![ts[0]] + spec_model_tokens(ts.skip(1), start, true)
            }
        } else {
            spec_model_tokens(ts.skip(1), start, false)
        }
    }
}

fn intel_model_start(t: &str) -> (r: bool)
    ensures
        r == spec_intel_model_start(t@),
{
    if t.unicode_len() > 0 && t.get_char(0) == 'i' {
        return true;
    }
    str_eq(t, "Xeon") || str_eq(t, "Celeron") || str_eq(t, "Pentium")
}

fn amd_model_start(t: &str) -> (r: bool)
    ensures
        r == spec_amd_model_start(t@),
{
    str_eq(t, "Ryzen") || str_eq(t, "EPYC") || str_eq(t, "Athlon")
}

fn model_end(t: &str) -> (r: bool)
    ensures
        r == spec_model_end(t@),
{
    str_contains(t, "@") || str_eq(t, "CPU")
}

/// Collects the model designation tokens out of the brand string's
/// tokens, under the AMD or the Intel start rule.
pub fn cpu_model_tokens(tokens: &Vec<String>, amd: bool) -> (r: Vec<String>)
    ensures
        views_of(r@) == spec_model_tokens(
            views_of(tokens@),
            if amd {
                amd_start_pred()
            } else {
                intel_start_pred()
            },
            false,
        ),
{
    let ghost ts = views_of(tokens@);
    let ghost pred = if amd {
        amd_start_pred()
    } else {
        intel_start_pred()
    };
    let mut r: Vec<String> = Vec::new();
    let mut found: bool = false;
    let mut i: usize = 0;
    proof {
        assert(ts.skip(0) =~= ts);
        assert(views_of(r@) =~= Seq::<Seq<char>>::empty());
    }
    while i < tokens.len()
        invariant_except_break
            ts == views_of(tokens@),
            ts.len() == tokens@.len(),
            i <= tokens@.len(),
            pred == if amd {
                amd_start_pred()
            } else {
                intel_start_pred()
            },
            spec_model_tokens(ts, pred, false) == views_of(r@) + spec_model_tokens(
                ts.skip(i as int),
                pred,
                found,
            ),
        ensures
            views_of(r@) == spec_model_tokens(ts, pred, false),
        decreases tokens@.len() - i,
    {
        let ghost before = views_of(r@);
        let ghost tail = spec_model_tokens(ts.skip(i as int), pred, found);
        proof {
            assert(ts.skip(i as int)[0] == ts[i as int]);
            assert(ts.skip(i as int).skip(1) =~= ts.skip(i as int + 1));
        }
        let t = &tokens[i];
        let starts = if amd {
            amd_model_start(t.as_str())
        } else {
            intel_model_start(t.as_str())
        };
        let now_found = found || starts;
        if now_found {
            if model_end(t.as_str()) {
                proof {
                    assert(views_of(r@) + tail =~= views_of(r@));
                }
                break ;
            }
            r.push(t.clone());
            found = true;
            proof {
                assert(views_of(r@) =~= before.push(ts[i as int]));
                assert(before.push(ts[i as int]) + spec_model_tokens(
                    ts.skip(i as int + 1),
                    pred,
                    true,
                ) =~= before + tail);
            }
        } else {
            found = false;
        }
        i = i + 1;
    }
    proof {
        assert(spec_model_tokens(ts.skip(ts.len() as int), pred, found) =~= Seq::<
            Seq<char>,
        >::empty());
        assert(views_of(r@) + Seq::<Seq<char>>::empty() =~= views_of(r@));
    }
    r
}

/// Tokens joined by single spaces.
pub open spec fn spec_join_spaces(ts: Seq<Seq<char>>) -> Seq<char>
    decreases ts.len(),
{
    if ts.len() == 0 {
        Seq::<char>::empty()
    } else if ts.len() == 1 {
        ts[0]
    } else {
        ts[0] + " "@ + spec_join_spaces(ts.skip(1))
    }
}

pub fn join_spaces(tokens: &Vec<String>) -> (r: String)
    ensures
        r@ == spec_join_spaces(views_of(tokens@)),
{
    let ghost ts = views_of(tokens@);
    let mut s = String::new();
    let mut i: usize = 0;
    while i < tokens.len()
        invariant
            ts == views_of(tokens@),
            ts.len() == tokens@.len(),
            i <= tokens@.len(),
            i == 0 ==> s@ =~= Seq::<char>::empty(),
            0 < i < ts.len() ==> spec_join_spaces(ts) == s@ + " "@ + spec_join_spaces(
                ts.skip(i as int),
            ),
            0 < i && i >= ts.len() ==> spec_join_spaces(ts) == s@,
        decreases tokens@.len() - i,
    {
        proof {
            assert(ts.skip(i as int)[0] == ts[i as int]);
            assert(ts.skip(i as int).skip(1) =~= ts.skip(i as int + 1));
        }
        let ghost old_s = s@;
        if i > 0 {
            s.append(" ");
        }
        s.append(tokens[i].as_str());
        proof {
            if i == 0 {
                if i + 1 < ts.len() {
                    assert(ts.skip(0) =~= ts);
                    assert(spec_join_spaces(ts) == ts[0] + " "@ + spec_join_spaces(ts.skip(1)));
                    assert(s@ =~= ts[0]);
                } else {
                    assert(ts.skip(0) =~= ts);
                    assert(s@ =~= ts[0]);
                }
            } else {
                if i + 1 < ts.len() {
                    assert(spec_join_spaces(ts.skip(i as int)) == ts[i as int] + " "@
                        + spec_join_spaces(ts.skip(i as int + 1)));
                    assert(old_s + " "@ + (ts[i as int] + " "@ + spec_join_spaces(
                        ts.skip(i as int + 1),
                    )) =~= (old_s + " "@ + ts[i as int]) + " "@ + spec_join_spaces(
                        ts.skip(i as int + 1),
                    ));
                    assert(s@ =~= old_s + " "@ + ts[i as int]);
                } else {
                    assert(spec_join_spaces(ts.skip(i as int)) == ts[i as int]);
                    assert(s@ =~= old_s + " "@ + ts[i as int]);
                }
            }
        }
        i = i + 1;
    }
    proof {
        if ts.len() == 0 {
            assert(s@ =~= Seq::<char>::empty());
        }
    }
    s
}

/// The position of the first occurrence of `c`, or the length when `c`
/// does not occur.
pub open spec fn spec_index_of(s: Seq<char>, c: char) -> nat
    decreases s.len(),
{
    if s.len() == 0 {
        0
    } else if s[0] == c {
        0
    } else {
        1 + spec_index_of(s.skip(1), c)
    }
}

fn index_of_char(s: &str, c: char) -> (r: usize)
    ensures
        r as nat == spec_index_of(s@, c),
        r <= s@.len(),
{
    let n = s.unicode_len();
    let mut i: usize = 0;
    proof {
        assert(s@.skip(0) =~= s@);
    }
    while i < n
        invariant
            n == s@.len(),
            i <= n,
            spec_index_of(s@, c) == i as nat + spec_index_of(s@.skip(i as int), c),
        decreases n - i,
    {
        proof {
            assert(s@.skip(i as int)[0] == s@[i as int]);
            assert(s@.skip(i as int).skip(1) =~= s@.skip(i as int + 1));
        }
        if s.get_char(i) == c {
            return i;
        }
        i = i + 1;
    }
    proof {
        assert(s@.skip(n as int) =~= Seq::<char>::empty());
    }
    n
}

/// The Apple model designation: from the first 'M' of the brand string
/// up to the next space (or its end); "Unknown" when no 'M' occurs.
pub open spec fn spec_apple_model(brand: Seq<char>) -> Seq<char> {
    let f = spec_index_of(brand, 'M');
    if f >= brand.len() {
        "Unknown"@
    } else {
        let rest = brand.skip(f as int);
        let g = spec_index_of(rest, ' ');
        if g >= rest.len() {
            rest
        } else {
            rest.take(g as int)
        }
    }
}

pub fn apple_model(brand: &str) -> (r: String)
    ensures
        r@ == spec_apple_model(brand@),
{
    let n = brand.unicode_len();
    let f = index_of_char(brand, 'M');
    if f >= n {
        return "Unknown".to_owned();
    }
    let rest = brand.substring_char(f, n);
    proof {
        assert(rest@ =~= brand@.skip(f as int));
    }
    let m = rest.unicode_len();
    let g = index_of_char(rest, ' ');
    if g >= m {
        rest.to_owned()
    } else {
        let cut = rest.substring_char(0, g);
        proof {
            assert(cut@ =~= rest@.take(g as int));
        }
        cut.to_owned()
    }
}

/// One CPU's identification, as reported to the front end.
pub struct CpuInfo {
    pub vendor: String,
    pub model: String,
    pub cores: usize,
    pub threads: usize,
}

/// The model designation rule per vendor: Intel brands take the tokens
/// from the first i-series/Xeon/Celeron/Pentium token up to a clock
/// marker or the word CPU, joined by spaces; AMD brands likewise from
/// Ryzen/EPYC/Athlon; Apple brands take the word at the first 'M';
/// otherwise, and when no tokens qualify, "Unknown".
pub open spec fn spec_cpu_model(brand: Seq<char>, tokens: Seq<Seq<char>>) -> Seq<char> {
    if contains_str(brand, "Intel"@) {
        let ms = spec_model_tokens(tokens, intel_start_pred(), false);
        if ms.len() == 0 {
            "Unknown"@
        } else {
            spec_join_spaces(ms)
        }
    } else if contains_str(brand, "AMD"@) {
        let ms = spec_model_tokens(tokens, amd_start_pred(), false);
        if ms.len() == 0 {
            "Unknown"@
        } else {
            spec_join_spaces(ms)
        }
    } else if contains_str(brand, "Apple"@) {
        spec_apple_model(brand)
    } else {
        "Unknown"@
    }
}

/// Classifies the CPU out of its brand string: the vendor by substring
/// tests, the model by the per-vendor designation rule over the brand
/// string's space-separated tokens (cut by the application), and the
/// machine's core and thread counts passed through.
pub fn cpu_info_from_brand(brand: &str, tokens: &Vec<String>, cores: usize, threads: usize) -> (r:
    CpuInfo)
    ensures
        r.vendor@ == spec_cpu_vendor(brand@),
        r.model@ == spec_cpu_model(brand@, views_of(tokens@)),
        r.cores == cores,
        r.threads == threads,
{
    let vendor = cpu_vendor(brand);
    let model: String = if str_contains(brand, "Intel") {
        let ms = cpu_model_tokens(tokens, false);
        if ms.len() == 0 {
            "Unknown".to_owned()
        } else {
            join_spaces(&ms)
        }
    } else if str_contains(brand, "AMD") {
        let ms = cpu_model_tokens(tokens, true);
        if ms.len() == 0 {
            "Unknown".to_owned()
        } else {
            join_spaces(&ms)
        }
    } else if str_contains(brand, "Apple") {
        apple_model(brand)
    } else {
        "Unknown".to_owned()
    };
    CpuInfo { vendor, model, cores, threads }
}

} // verus!
