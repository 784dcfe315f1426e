//! Which files of a model repository travel with every checkpoint.
use vstd::prelude::*;

verus! {

/// A repository file whose name (its last path component) is one of these
/// is kept beside every checkpoint the node writes: model and generation
/// configuration, tokenizer files, and a file named exactly `.py`.
pub open spec fn is_checkpoint_extra_name(name: Seq<char>) -> bool {
    ||| name == "config.json"@
    ||| name == "tokenizer.json"@
    ||| name == "tokenizer_config.json"@
    ||| name == "special_tokens_map.json"@
    ||| name == "generation_config.json"@
    ||| name == ".py"@
}

/// Whether `name` ends with `suffix`.
pub open spec fn ends_with(name: Seq<char>, suffix: Seq<char>) -> bool {
    suffix.len() <= name.len() && name.subrange(name.len() - suffix.len(), name.len() as int) == suffix
}

/// The files kept beside every checkpoint are configuration and tokenizer
/// files: a kept name is `.py` or ends with `.json`. Weight files, named
/// with `.bin`, `.safetensors` or `.pt` at the end, are never kept.
pub proof fn lemma_extra_files_are_never_weights(name: Seq<char>)
    ensures
        is_checkpoint_extra_name(name) ==> name == ".py"@ || ends_with(name, ".json"@),
        ends_with(name, ".bin"@) ==> !is_checkpoint_extra_name(name),
        ends_with(name, ".safetensors"@) ==> !is_checkpoint_extra_name(name),
        ends_with(name, ".pt"@) ==> !is_checkpoint_extra_name(name),
{
    reveal_strlit("config.json");
    reveal_strlit("tokenizer.json");
    reveal_strlit("tokenizer_config.json");
    reveal_strlit("special_tokens_map.json");
    reveal_strlit("generation_config.json");
    reveal_strlit(".py");
    reveal_strlit(".json");
    reveal_strlit(".bin");
    reveal_strlit(".safetensors");
    reveal_strlit(".pt");
    if is_checkpoint_extra_name(name) && name != ".py"@ {
        assert(name.subrange(name.len() - 5, name.len() as int) =~= ".json"@);
    }
    if is_checkpoint_extra_name(name) {
        if ends_with(name, ".bin"@) {
            assert(name[name.len() - 2] == ".bin"@[2]);
        }
        if ends_with(name, ".safetensors"@) {
            assert(name[name.len() - 1] == ".safetensors"@[11]);
        }
        if ends_with(name, ".pt"@) {
            assert(name[name.len() - 1] == ".pt"@[2]);
        }
    }
}

/// A file is kept beside every checkpoint exactly when its name is one of
/// `config.json`, `tokenizer.json`, `tokenizer_config.json`,
/// `special_tokens_map.json`, `generation_config.json` or `.py`.
pub proof fn lemma_extra_file_names(name: Seq<char>)
    ensures
        is_checkpoint_extra_name(name) <==> (name == "config.json"@ || name == "tokenizer.json"@ || name
            == "tokenizer_config.json"@ || name == "special_tokens_map.json"@ || name
            == "generation_config.json"@ || name == ".py"@),
        name == "config.json"@ ==> is_checkpoint_extra_name(name),
        name == ".py"@ ==> is_checkpoint_extra_name(name),
{
}

/// The positions kept for a repository are those of configuration and
/// tokenizer files only, never of weight files.
pub proof fn lemma_selection_keeps_no_weights(names: Seq<Option<String>>, kept: Seq<usize>)
    requires
        selects_extra_files(names, kept),
    ensures
        forall|k: int|
            0 <= k < kept.len() ==> (#[trigger] names[kept[k] as int] matches Some(n) && (n@ == ".py"@
                || ends_with(n@, ".json"@))),
        forall|i: int|
            0 <= i < names.len() && (#[trigger] names[i] matches Some(n) && ends_with(n@, ".bin"@))
                ==> !kept.contains(i as usize),
{
    assert forall|k: int| 0 <= k < kept.len() implies (#[trigger] names[kept[k] as int] matches Some(n)
        && (n@ == ".py"@ || ends_with(n@, ".json"@))) by {
        assert(kept.contains(kept[k]));
        let i = kept[k] as int;
        assert(is_checkpoint_extra_file(names[i]));
        if let Some(n) = names[i] {
            lemma_extra_files_are_never_weights(n@);
        }
    }
    assert forall|i: int|
        0 <= i < names.len() && (#[trigger] names[i] matches Some(n) && ends_with(n@, ".bin"@))
            implies !kept.contains(i as usize) by {
        if let Some(n) = names[i] {
            lemma_extra_files_are_never_weights(n@);
        }
    }
}

/// Whether a file, given by its last path component (`None` when the path
/// ends in no file name), is kept beside every checkpoint.
pub open spec fn is_checkpoint_extra_file(name: Option<String>) -> bool {
    match name {
        Some(n) => is_checkpoint_extra_name(n@),
        None => false,
    }
}

/// `kept` lists, in increasing order, exactly the positions of the files
/// of `names` that are kept beside every checkpoint.
pub open spec fn selects_extra_files(names: Seq<Option<String>>, kept: Seq<usize>) -> bool {
    &&& forall|k: int| 0 <= k < kept.len() ==> #[trigger] kept[k] < names.len()
    &&& forall|k: int, l: int| 0 <= k < l < kept.len() ==> kept[k] < kept[l]
    &&& forall|i: int|
        0 <= i < names.len() ==> (is_checkpoint_extra_file(#[trigger] names[i]) <==> kept.contains(
            i as usize,
        ))
}

/// Exactly one list selects the extra files of a repository: the positions
/// of its files kept beside every checkpoint, in increasing order.
pub proof fn lemma_extra_file_selection_is_unique(names: Seq<Option<String>>, a: Seq<usize>, b: Seq<usize>)
    requires
        selects_extra_files(names, a),
        selects_extra_files(names, b),
    ensures
        a == b,
{
    assert forall|x: usize| a.contains(x) <==> b.contains(x) by {
        if a.contains(x) {
            let k = choose|k: int| 0 <= k < a.len() && a[k] == x;
            assert(names[x as int] == names[x as int]);
        }
        if b.contains(x) {
            let k = choose|k: int| 0 <= k < b.len() && b[k] == x;
            assert(names[x as int] == names[x as int]);
        }
    }
    lemma_increasing_with_same_elements(a, b);
}

proof fn lemma_increasing_with_same_elements(a: Seq<usize>, b: Seq<usize>)
    requires
        forall|k: int, l: int| 0 <= k < l < a.len() ==> a[k] < a[l],
        forall|k: int, l: int| 0 <= k < l < b.len() ==> b[k] < b[l],
        forall|x: usize| a.contains(x) <==> b.contains(x),
    ensures
        a == b,
    decreases a.len(),
{
    if a.len() == 0 {
        if b.len() > 0 {
            assert(b.contains(b[0]));
        }
        assert(a =~= b);
    } else {
        assert(a.contains(a[0]));
        assert(b.len() > 0);
        assert(b.contains(b[0]));
        let kb = choose|k: int| 0 <= k < b.len() && b[k] == a[0];
        let ka = choose|k: int| 0 <= k < a.len() && a[k] == b[0];
        assert(a[0] == b[0]) by {
            if kb > 0 {
                assert(b[0] < b[kb]);
            }
            if ka > 0 {
                assert(a[0] < a[ka]);
            }
        }
        let ra = a.drop_first();
        let rb = b.drop_first();
        assert forall|x: usize| ra.contains(x) <==> rb.contains(x) by {
            if ra.contains(x) {
                let k = choose|k: int| 0 <= k < ra.len() && ra[k] == x;
                assert(a[k + 1] == x);
                assert(a.contains(x));
                let j = choose|j: int| 0 <= j < b.len() && b[j] == x;
                assert(j != 0);
                assert(rb[j - 1] == x);
            }
            if rb.contains(x) {
                let k = choose|k: int| 0 <= k < rb.len() && rb[k] == x;
                assert(b[k + 1] == x);
                assert(b.contains(x));
                let j = choose|j: int| 0 <= j < a.len() && a[j] == x;
                assert(j != 0);
                assert(ra[j - 1] == x);
            }
        }
        lemma_increasing_with_same_elements(ra, rb);
        assert(a =~= b) by {
            assert forall|i: int| 0 <= i < a.len() implies a[i] == b[i] by {
                if i > 0 {
                    assert(ra[i - 1] == rb[i - 1]);
                }
            }
        }
    }
}

fn names_equal(name: &String, expected: &str) -> (eq: bool)
    ensures
        eq == (name@ == expected@),
{
    let expected = String::from_str(expected);
    *name == expected
}

/// Whether one file is kept beside every checkpoint.
pub fn is_checkpoint_extra(name: &Option<String>) -> (keep: bool)
    ensures
        keep == is_checkpoint_extra_file(*name),
{
    match name {
        Some(n) => {
            names_equal(n, "config.json") || names_equal(n, "tokenizer.json") || names_equal(
                n,
                "tokenizer_config.json",
            ) || names_equal(n, "special_tokens_map.json") || names_equal(
                n,
                "generation_config.json",
            ) || names_equal(n, ".py")
        },
        None => false,
    }
}

/// The positions, in increasing order, of the repository files kept beside
/// every checkpoint; `names[i]` is the last path component of file `i`.
pub fn checkpoint_extra_files(names: &Vec<Option<String>>) -> (kept: Vec<usize>)
    ensures
        selects_extra_files(names@, kept@),
{
    let mut kept: Vec<usize> = Vec::new();
    let mut i: usize = 0;
    while i < names.len()
        invariant
            i <= names.len(),
            forall|k: int| 0 <= k < kept.len() ==> #[trigger] kept[k] < i,
            forall|k: int, l: int| 0 <= k < l < kept.len() ==> kept[k] < kept[l],
            forall|j: int|
                0 <= j < i ==> (is_checkpoint_extra_file(#[trigger] names[j]) <==> kept@.contains(
                    j as usize,
                )),
        decreases names.len() - i,
    {
        let keep = is_checkpoint_extra(&names[i]);
        let ghost before = kept@;
        if keep {
            kept.push(i);
        }
        assert forall|j: int| 0 <= j <= i implies (is_checkpoint_extra_file(#[trigger] names[j])
            <==> kept@.contains(j as usize)) by {
            if before.contains(j as usize) {
                let k = choose|k: int| 0 <= k < before.len() && before[k] == j as usize;
                assert(kept@[k] == j as usize);
            }
            if kept@.contains(j as usize) {
                let k = choose|k: int| 0 <= k < kept.len() && kept@[k] == j as usize;
                if k < before.len() {
                    assert(before[k] == j as usize);
                }
            }
            if j == i && keep {
                assert(kept@[kept.len() - 1] == i);
            }
        }
        i = i + 1;
    }
    kept
}

} // verus!
