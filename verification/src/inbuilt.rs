//! What a submitted line asks the shell to do: one of the commands that the
//! shell carries out itself, or a program to run.

use vstd::prelude::*;
use crate::error::{Error, Lookup};
use crate::pane_set::{normalized, PaneSet};
use crate::text::{
    chars_of,
    is_number,
    is_word,
    join_from,
    joined,
    number,
    parse_number,
    split_words,
    string_of,
    strings_view,
    texts_view,
    words,
};

verus! {

/// What a line asks for.
#[derive(Clone, Debug, PartialEq, Eq)]
pub enum Request {
    /// The line holds no word.
    Nothing,
    /// `cd <dir>`: make `dir` the working directory.
    ChangeDir { dir: String },
    /// `clear`: stop and take out every pane.
    ClearAll,
    /// `clear <n>`: stop and take out the pane at position `index`.
    ClearPane { index: usize },
    /// `send <n> <message>`: hand `message` to the program of the pane at
    /// position `index`.
    Send { index: usize, message: String },
    /// `reload`: look again for the programs that can be run.
    Reload,
    /// `exit` or `quit`: leave the shell.
    Exit,
    /// Anything else: run the program `name` with `args`.
    Run { name: String, args: Vec<String> },
}

/// What a `Request` holds.
pub enum RequestView {
    Nothing,
    ChangeDir { dir: Seq<char> },
    ClearAll,
    ClearPane { index: nat },
    Send { index: nat, message: Seq<char> },
    Reload,
    Exit,
    Run { name: Seq<char>, args: Seq<Seq<char>> },
}

impl View for Request {
    type V = RequestView;

    open spec fn view(&self) -> RequestView {
        match self {
            Request::Nothing => RequestView::Nothing,
            Request::ChangeDir { dir } => RequestView::ChangeDir { dir: dir@ },
            Request::ClearAll => RequestView::ClearAll,
            Request::ClearPane { index } => RequestView::ClearPane { index: *index as nat },
            Request::Send { index, message } => RequestView::Send {
                index: *index as nat,
                message: message@,
            },
            Request::Reload => RequestView::Reload,
            Request::Exit => RequestView::Exit,
            Request::Run { name, args } => RequestView::Run {
                name: name@,
                args: strings_view(args@),
            },
        }
    }
}

/// Whether `word` writes down a pane number that the machine can hold.
pub open spec fn is_pane_number(word: Seq<char>) -> bool {
    is_number(word) && number(word) <= usize::MAX
}

/// What the words of a line ask for. The first word decides: the shell's own
/// commands come before any program of the same name. A pane is named by its
/// number, counted from one, and the message of `send` is made of all words
/// behind the pane number.
pub open spec fn requested(words: Seq<Seq<char>>) -> Result<RequestView, Lookup> {
    if words.len() == 0 {
        Ok(RequestView::Nothing)
    } else if words[0] == "cd"@ {
        if words.len() >= 2 {
            Ok(RequestView::ChangeDir { dir: words[1] })
        } else {
            Err(Lookup::IncorrectArguments)
        }
    } else if words[0] == "clear"@ {
        if words.len() == 1 {
            Ok(RequestView::ClearAll)
        } else if is_pane_number(words[1]) {
            Ok(RequestView::ClearPane { index: normalized(number(words[1])) })
        } else {
            Err(Lookup::IncorrectArguments)
        }
    } else if words[0] == "send"@ {
        if words.len() >= 3 && is_pane_number(words[1]) {
            Ok(
                RequestView::Send {
                    index: normalized(number(words[1])),
                    message: joined(words.skip(2)),
                },
            )
        } else {
            Err(Lookup::IncorrectArguments)
        }
    } else if words[0] == "reload"@ {
        Ok(RequestView::Reload)
    } else if words[0] == "exit"@ || words[0] == "quit"@ {
        Ok(RequestView::Exit)
    } else {
        Ok(RequestView::Run { name: words[0], args: words.skip(1) })
    }
}

impl Request {
    /// What `line` asks for, or why it cannot be understood.
    pub fn parse(line: &str) -> (result: Result<Request, Error>)
        ensures
            match requested(words(line@)) {
                Ok(request) => result matches Ok(r) && r@ == request,
                Err(lookup) => result == Err::<Request, Error>(Error::LookupFailure(lookup)),
            },
    {
        let line = chars_of(line);
        let words = split_words(&line);
        let ghost all = texts_view(words@);
        if words.len() == 0 {
            return Ok(Request::Nothing);
        }
        if is_word(&words[0], "cd") {
            if words.len() >= 2 {
                Ok(Request::ChangeDir { dir: string_of(&words[1]) })
            } else {
                Err(Error::LookupFailure(Lookup::IncorrectArguments))
            }
        } else if is_word(&words[0], "clear") {
            if words.len() == 1 {
                Ok(Request::ClearAll)
            } else {
                match parse_number(&words[1]) {
                    Some(n) => Ok(Request::ClearPane { index: PaneSet::normalize_index(n) }),
                    None => Err(Error::LookupFailure(Lookup::IncorrectArguments)),
                }
            }
        } else if is_word(&words[0], "send") {
            if words.len() >= 3 {
                match parse_number(&words[1]) {
                    Some(n) => {
                        let message = join_from(&words, 2);
                        Ok(
                            Request::Send {
                                index: PaneSet::normalize_index(n),
                                message: string_of(&message),
                            },
                        )
                    },
                    None => Err(Error::LookupFailure(Lookup::IncorrectArguments)),
                }
            } else {
                Err(Error::LookupFailure(Lookup::IncorrectArguments))
            }
        } else if is_word(&words[0], "reload") {
            Ok(Request::Reload)
        } else if is_word(&words[0], "exit") || is_word(&words[0], "quit") {
            Ok(Request::Exit)
        } else {
            let name = string_of(&words[0]);
            let mut args: Vec<String> = Vec::new();
            let mut i: usize = 1;
            while i < words.len()
                invariant
                    1 <= i <= words.len(),
                    all == texts_view(words@),
                    strings_view(args@) == all.subrange(1, i as int),
                decreases words.len() - i,
            {
                args.push(string_of(&words[i]));
                assert(all.subrange(1, i + 1) =~= all.subrange(1, i as int).push(all[i as int]));
                i += 1;
            }
            Ok(Request::Run { name, args })
        }
    }
}

} // verus!
