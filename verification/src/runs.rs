//! The experiments that were saved.
use crate::json::{hold, list_text, parsed, read_from, Json};
use crate::model::{extension, extension_fits};
use crate::text::{
    followed_by, join, joined_lists_are_joined_by_a_separator, optional_text, same_text, texts,
};
use vstd::prelude::*;

verus! {

/// The directory of experiments, below the place where everything is saved.
pub const DIRECTORY: &'static str = "experiments";

/// A file in the directory of experiments.
pub struct RunFile {
    /// The extension of its name.
    pub extension: Option<String>,
    /// What it holds, where that was read.
    pub content: Option<String>,
}

impl RunFile {
    /// The file at `path`, before it is read.
    pub fn at(path: &str) -> (file: RunFile)
        ensures
            extension_fits(optional_text(file.extension), path@),
            file.content is None,
    {
        RunFile { extension: extension(path), content: None }
    }
}

/// Whether the extension of a file says that it holds a run.
pub open spec fn names_run(extension: Option<Seq<char>>) -> bool {
    extension == Some("json"@)
}

/// Whether a file holds a run that could be read.
pub open spec fn holds_run(file: RunFile) -> bool {
    names_run(optional_text(file.extension)) && file.content is Some
}

/// The runs that the files hold, in order.
pub open spec fn runs(files: Seq<RunFile>) -> Seq<Seq<char>> {
    files.filter(|file: RunFile| holds_run(file)).map_values(
        |file: RunFile| optional_text(file.content)->0,
    )
}

/// One more file adds its run at the end, if it holds one.
proof fn runs_of_one_more(files: Seq<RunFile>, file: RunFile)
    ensures
        runs(files.push(file)) == if holds_run(file) {
            runs(files).push(optional_text(file.content)->0)
        } else {
            runs(files)
        },
{
    reveal(Seq::filter);
    assert(files.push(file).drop_last() =~= files);
    assert(runs(files.push(file)) =~= if holds_run(file) {
        runs(files).push(optional_text(file.content)->0)
    } else {
        runs(files)
    });
}

/// Whether a file with this extension holds a run and is to be read.
pub fn is_run_file(extension: &Option<String>) -> (yes: bool)
    ensures
        yes == names_run(optional_text(*extension)),
        yes <==> (extension matches Some(name) && name@ == "json"@),
{
    match extension {
        Some(name) => same_text(name.as_str(), "json"),
        None => false,
    }
}

/// Lists the runs that the files hold, as one JSON array; a directory that is not there holds
/// none.
pub fn fetch_runs(files: Option<&Vec<RunFile>>) -> (list: String)
    ensures
        list@ == list_text(
            match files {
                Some(present) => runs(present@),
                None => seq![],
            },
        ),
        files is None ==> list@ == "[]"@,
{
    let mut contents: Vec<String> = Vec::new();
    if let Some(present) = files {
        let mut i: usize = 0;
        proof {
            reveal(Seq::filter);
        }
        assert(texts(contents@) =~= runs(present@.take(0)));
        while i < present.len()
            invariant
                i <= present@.len(),
                texts(contents@) == runs(present@.take(i as int)),
            decreases present@.len() - i,
        {
            proof {
                runs_of_one_more(present@.take(i as int), present@[i as int]);
                assert(present@.take(i + 1) =~= present@.take(i as int).push(present@[i as int]));
            }
            let ghost before = texts(contents@);
            if is_run_file(&present[i].extension) {
                if let Some(content) = &present[i].content {
                    contents.push(content.clone());
                    assert(texts(contents@) =~= before.push(content@));
                }
            }
            i = i + 1;
        }
        assert(present@.take(i as int) =~= present@);
    } else {
        assert(texts(contents@) =~= seq![]);
        proof {
            no_runs_make_an_empty_list();
        }
    }
    let mut list = followed_by("[", join(&contents, ",").as_str());
    list.append("]");
    list
}

/// Where there is no run the list is empty.
pub proof fn no_runs_make_an_empty_list()
    ensures
        list_text(seq![]) == "[]"@,
{
    reveal_strlit("[");
    reveal_strlit("]");
    reveal_strlit("[]");
    assert(list_text(seq![]) =~= "[]"@);
}

/// Where each run that could be read is one JSON value, the list is read as the array of those
/// values, in order. `read` is what `serde_json::from_str` reads from the list.
pub proof fn runs_are_read_as_an_array(
    files: Seq<RunFile>,
    values: Seq<Json>,
    read: Option<Json>,
)
    requires
        hold(runs(files), values),
        read_from(read, list_text(runs(files))),
    ensures
        parsed(list_text(runs(files))) == Some(Json::Array(values)),
        read == Some(Json::Array(values)),
        values.len() == files.filter(|file: RunFile| holds_run(file)).len(),
{
}

/// Files are listed one by one: a file with the extension `json` that could be read is listed with
/// all that it holds, any other is left out, and what becomes of one says nothing of the others.
pub proof fn runs_are_listed_one_by_one(one: Seq<RunFile>, other: Seq<RunFile>, file: RunFile)
    ensures
        runs(one + other) == runs(one) + runs(other),
        (file.extension matches Some(name) && name@ == "json"@) ==> (file.content matches Some(
            content,
        ) ==> runs(seq![file]) == seq![content@]),
        !(file.extension matches Some(name) && name@ == "json"@) ==> runs(seq![file]) == Seq::<
            Seq<char>,
        >::empty(),
        file.content is None ==> runs(seq![file]) == Seq::<Seq<char>>::empty(),
    decreases other.len(),
{
    reveal(Seq::filter);
    let none = Seq::<RunFile>::empty();
    assert(runs(none) =~= Seq::empty());
    runs_of_one_more(none, file);
    assert(none.push(file) =~= seq![file]);
    if let Some(content) = file.content {
        assert(Seq::<Seq<char>>::empty().push(content@) =~= seq![content@]);
    }
    if other.len() == 0 {
        assert(one + other =~= one);
        assert(other =~= none);
        assert(runs(one) + runs(other) =~= runs(one));
    } else {
        let earlier = other.drop_last();
        runs_are_listed_one_by_one(one, earlier, file);
        runs_of_one_more(one + earlier, other.last());
        runs_of_one_more(earlier, other.last());
        assert((one + earlier).push(other.last()) =~= one + other);
        assert(earlier.push(other.last()) =~= other);
        assert(runs(one + other) =~= runs(one) + runs(other));
    }
}

/// A list has its items between brackets: nothing where there is none, one as it is, and more with
/// a comma between them.
pub proof fn list_has_its_items_between_brackets(
    one: Seq<Seq<char>>,
    other: Seq<Seq<char>>,
    item: Seq<char>,
)
    requires
        one.len() > 0,
        other.len() > 0,
    ensures
        list_text(seq![]) == seq!['[', ']'],
        list_text(seq![item]) == seq!['['] + item + seq![']'],
        list_text(one + other) == list_text(one).drop_last() + seq![','] + list_text(other).skip(1),
{
    reveal_strlit("[");
    reveal_strlit("]");
    reveal_strlit(",");
    assert("["@ =~= seq!['[']);
    assert("]"@ =~= seq![']']);
    assert(","@ =~= seq![',']);
    joined_lists_are_joined_by_a_separator(one, other, ","@);
    joined_lists_are_joined_by_a_separator(seq![item], other, ","@);
    assert(list_text(seq![]) =~= seq!['[', ']']);
    assert(list_text(seq![item]) =~= seq!['['] + item + seq![']']);
    assert(list_text(one + other) =~= list_text(one).drop_last() + seq![','] + list_text(
        other,
    ).skip(1));
}

/// The experiments are in the directory `experiments`.
pub proof fn experiments_have_their_directory()
    ensures
        DIRECTORY@ == "experiments"@,
{
}

} // verus!
