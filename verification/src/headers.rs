//! The notice that source files start with.

use vstd::prelude::*;
use vstd::string::*;
use vstd::utf8::*;

verus! {

/// What files with an extension start with; `None` where nothing is laid down
/// for it.
pub open spec fn prefix_of(ext: Seq<char>) -> Option<Seq<char>> {
    if ext == "rs"@ || ext == "h"@ || ext == "c"@ || ext == "js"@ {
        Some(
            "// Copyright (c) Microsoft Corporation.\n// Licensed under the MIT license.\n\n"@,
        )
    } else if ext == "sh"@ {
        Some(
            "#! /bin/bash\n\n# Copyright (c) Microsoft Corporation.\n# Licensed under the MIT license.\n\n"@,
        )
    } else if ext == "S"@ {
        Some(
            "/* Copyright (c) Microsoft Corporation.\n   Licensed under the MIT license. */\n\n"@,
        )
    } else if ext == "html"@ {
        Some(
            "<!-- Copyright (c) Microsoft Corporation.\n     Licensed under the MIT license. -->\n"@,
        )
    } else if ext == "css"@ {
        Some(
            "/* Copyright (c) Microsoft Corporation.\n   Licensed under the MIT license. */\n"@,
        )
    } else if ext == "py"@ {
        Some(
            "#!/usr/bin/env python3\n\n# Copyright (c) Microsoft Corporation.\n# Licensed under the MIT license.\n"@,
        )
    } else if ext == "2"@ || ext == "6"@ || ext == "elf"@ || ext == "hooked"@
        || ext == "json"@ || ext == "ld"@ || ext == "lock"@
        || ext == "md"@ || ext == "png"@ || ext == "snap"@ || ext == "so"@
        || ext == "svg"@ || ext == "tar"@ || ext == "toml"@
        || ext == "txt"@ {
        Some(
            ""@,
        )
    } else {
        None
    }
}

fn is(ext: &String, other: &str) -> (same: bool)
    ensures
        same == (ext@ == other@),
{
    ext.eq(&String::from_str(other))
}

/// What files with an extension start with.
pub fn required_prefix(ext: &String) -> (prefix: Option<&'static str>)
    ensures
        match prefix {
            Some(p) => prefix_of(ext@) == Some(p@),
            None => prefix_of(ext@) is None,
        },
{
    if is(ext, "rs") || is(ext, "h") || is(ext, "c") || is(ext, "js") {
        Some(
            "// Copyright (c) Microsoft Corporation.\n// Licensed under the MIT license.\n\n",
        )
    } else if is(ext, "sh") {
        Some(
            "#! /bin/bash\n\n# Copyright (c) Microsoft Corporation.\n# Licensed under the MIT license.\n\n",
        )
    } else if is(ext, "S") {
        Some(
            "/* Copyright (c) Microsoft Corporation.\n   Licensed under the MIT license. */\n\n",
        )
    } else if is(ext, "html") {
        Some(
            "<!-- Copyright (c) Microsoft Corporation.\n     Licensed under the MIT license. -->\n",
        )
    } else if is(ext, "css") {
        Some(
            "/* Copyright (c) Microsoft Corporation.\n   Licensed under the MIT license. */\n",
        )
    } else if is(ext, "py") {
        Some(
            "#!/usr/bin/env python3\n\n# Copyright (c) Microsoft Corporation.\n# Licensed under the MIT license.\n",
        )
    } else if is(ext, "2") || is(ext, "6") || is(ext, "elf") || is(ext, "hooked")
        || is(ext, "json") || is(ext, "ld") || is(ext, "lock")
        || is(ext, "md") || is(ext, "png") || is(ext, "snap")
        || is(ext, "so") || is(ext, "svg") || is(ext, "tar")
        || is(ext, "toml") || is(ext, "txt") {
        Some(
            "",
        )
    } else {
        None
    }
}

/// Whether the file at the path has requirements of its own, and may start in
/// any way.
pub open spec fn skipped(path: Seq<char>) -> bool {
    path == "LICENSE"@
        || path == "litebox_platform/src/sync/mutex.rs"@
        || path == "litebox_platform/src/sync/rwlock.rs"@
        || path == "litebox_runner_linux_on_macos_userland/tests/test-bins/hello_world_dyn"@
        || path == "litebox_runner_linux_on_macos_userland/tests/test-bins/ld-linux-aarch64.so.1"@
        || path == "litebox_runner_linux_on_windows_userland/tests/test-bins/hello_exec_nolibc"@
        || path == "litebox_runner_linux_on_windows_userland/tests/test-bins/hello_thread"@
        || path == "litebox_runner_linux_on_windows_userland/tests/test-bins/hello_thread_static"@
        || path == "litebox_runner_linux_on_windows_userland/tests/test-bins/hello_world_dyn"@
        || path == "litebox_runner_linux_on_windows_userland/tests/test-bins/hello_world_static"@
        || path == "litebox_runner_linux_on_windows_userland/tests/test-bins/pipe_broker"@
        || path == "litebox_runner_linux_on_windows_userland/tests/test-bins/thread_static"@
        || path == "litebox_syscall_rewriter/tests/hello"@
        || path == "litebox_syscall_rewriter/tests/hello-32"@
        || path == "litebox_syscall_rewriter/tests/hello-aarch64"@
}

/// Whether the file at the path has requirements of its own, and may start in
/// any way.
pub fn is_skipped(path: &String) -> (skip: bool)
    ensures
        skip == skipped(path@),
{
    is(path, "LICENSE")
        || is(path, "litebox_platform/src/sync/mutex.rs")
        || is(path, "litebox_platform/src/sync/rwlock.rs")
        || is(path, "litebox_runner_linux_on_macos_userland/tests/test-bins/hello_world_dyn")
        || is(path, "litebox_runner_linux_on_macos_userland/tests/test-bins/ld-linux-aarch64.so.1")
        || is(path, "litebox_runner_linux_on_windows_userland/tests/test-bins/hello_exec_nolibc")
        || is(path, "litebox_runner_linux_on_windows_userland/tests/test-bins/hello_thread")
        || is(path, "litebox_runner_linux_on_windows_userland/tests/test-bins/hello_thread_static")
        || is(path, "litebox_runner_linux_on_windows_userland/tests/test-bins/hello_world_dyn")
        || is(path, "litebox_runner_linux_on_windows_userland/tests/test-bins/hello_world_static")
        || is(path, "litebox_runner_linux_on_windows_userland/tests/test-bins/pipe_broker")
        || is(path, "litebox_runner_linux_on_windows_userland/tests/test-bins/thread_static")
        || is(path, "litebox_syscall_rewriter/tests/hello")
        || is(path, "litebox_syscall_rewriter/tests/hello-32")
        || is(path, "litebox_syscall_rewriter/tests/hello-aarch64")
}

/// What there is to say of a file.
#[derive(Clone, Copy, Debug, PartialEq, Eq, Structural)]
pub enum HeaderVerdict {
    /// It has no extension.
    NoExtension,
    /// Nothing is laid down for its extension.
    UnknownExtension,
    /// It does not start as it should.
    Missing,
    /// It starts as it should.
    Present,
}

/// Whether `data` starts with `prefix`.
pub open spec fn starts_with(data: Seq<u8>, prefix: Seq<u8>) -> bool {
    data.len() >= prefix.len() && data.take(prefix.len() as int) == prefix
}

/// Whether the bytes from `at` on are those of the word.
pub open spec fn stands_at(data: Seq<u8>, word: Seq<u8>, at: int) -> bool {
    0 <= at && at + word.len() <= data.len() && data.subrange(at, at + word.len()) == word
}

/// Whether the word stands anywhere in the data.
pub open spec fn holds_word(data: Seq<u8>, word: Seq<u8>) -> bool {
    exists|at: int| stands_at(data, word, at)
}

fn matches_at(data: &[u8], word: &[u8], at: usize) -> (found: bool)
    requires
        at + word.len() <= data.len(),
    ensures
        found == stands_at(data@, word@, at as int),
{
    let mut i: usize = 0;
    while i < word.len()
        invariant
            i <= word.len(),
            at + word.len() <= data.len(),
            forall|k: int| 0 <= k < i ==> data@[at + k] == word@[k],
        decreases word.len() - i,
    {
        if data[at + i] != word[i] {
            assert(data@.subrange(at as int, at + word.len())[i as int] != word@[i as int]);
            return false;
        }
        i += 1;
    }
    assert(data@.subrange(at as int, at + word.len()) =~= word@);
    true
}

fn holds(data: &[u8], word: &[u8]) -> (found: bool)
    ensures
        found == holds_word(data@, word@),
{
    let mut at: usize = 0;
    while at <= data.len() && word.len() <= data.len() - at
        invariant
            at <= data.len() + 1,
            forall|k: int| 0 <= k < at ==> !stands_at(data@, word@, k),
        decreases data.len() + 1 - at,
    {
        if matches_at(data, word, at) {
            assert(stands_at(data@, word@, at as int));
            return true;
        }
        if at == data.len() {
            return false;
        }
        at += 1;
    }
    false
}

/// What there is to say of a file with this extension and these bytes.
pub fn copyright_header(ext: Option<String>, data: &[u8]) -> (verdict: HeaderVerdict)
    ensures
        verdict == match ext {
            None => HeaderVerdict::NoExtension,
            Some(e) => match prefix_of(e@) {
                None => HeaderVerdict::UnknownExtension,
                Some(p) => if starts_with(data@, encode_utf8(p)) {
                    HeaderVerdict::Present
                } else {
                    HeaderVerdict::Missing
                },
            },
        },
{
    let Some(e) = ext else {
        return HeaderVerdict::NoExtension;
    };
    let Some(prefix) = required_prefix(&e) else {
        return HeaderVerdict::UnknownExtension;
    };
    let bytes = prefix.as_bytes();
    if bytes.len() > data.len() {
        return HeaderVerdict::Missing;
    }
    assert(data@.subrange(0, bytes.len() as int) =~= data@.take(bytes.len() as int));
    if matches_at(data, bytes, 0) {
        HeaderVerdict::Present
    } else {
        HeaderVerdict::Missing
    }
}

/// Whether a file without its notice can be given one: not where it speaks of
/// licensing somewhere else.
pub fn can_add_header(data: &[u8]) -> (can: bool)
    ensures
        can == (!holds_word(data@, encode_utf8("opyright"@)) && !holds_word(
            data@,
            encode_utf8("icensed"@),
        )),
{
    !holds(data, "opyright".as_bytes()) && !holds(data, "icensed".as_bytes())
}

/// The file with the notice in front of it.
pub fn add_header(prefix: &str, data: &[u8]) -> (text: Vec<u8>)
    ensures
        text@ == encode_utf8(prefix@) + data@,
        starts_with(text@, encode_utf8(prefix@)),
{
    let mut text: Vec<u8> = Vec::new();
    text.extend_from_slice(prefix.as_bytes());
    text.extend_from_slice(data);
    assert(text@ =~= encode_utf8(prefix@) + data@);
    assert(text@.take(encode_utf8(prefix@).len() as int) =~= encode_utf8(prefix@));
    text
}

/// A file whose notice was added starts as it should.
pub proof fn added_header_is_present(ext: Seq<char>, data: Seq<u8>)
    requires
        prefix_of(ext) is Some,
    ensures
        starts_with(encode_utf8(prefix_of(ext)->0) + data, encode_utf8(prefix_of(ext)->0)),
{
    let prefix = encode_utf8(prefix_of(ext)->0);
    assert((prefix + data).take(prefix.len() as int) =~= prefix);
}

/// The bytes of two strings behind each other are those of the first, then those
/// of the second.
proof fn bytes_add_up(a: Seq<char>, b: Seq<char>)
    ensures
        encode_utf8(a + b) == encode_utf8(a) + encode_utf8(b),
    decreases a.len(),
{
    reveal_with_fuel(encode_utf8, 2);
    if a.len() == 0 {
        assert(a + b =~= b);
        assert(encode_utf8(a) + encode_utf8(b) =~= encode_utf8(b));
    } else {
        bytes_add_up(a.drop_first(), b);
        assert((a + b).drop_first() =~= a.drop_first() + b);
        assert((a + b)[0] == a[0]);
        assert(encode_utf8(a + b) =~= encode_utf8(a) + encode_utf8(b));
    }
}

/// A text that holds a word holds its bytes, whatever follows.
proof fn words_stand_in_bytes(text: Seq<char>, at: int, word: Seq<char>, data: Seq<u8>)
    requires
        0 <= at,
        at + word.len() <= text.len(),
        text.subrange(at, at + word.len()) == word,
    ensures
        holds_word(encode_utf8(text) + data, encode_utf8(word)),
{
    let head = text.take(at);
    let tail = text.skip(at + word.len());
    assert(text =~= head + (word + tail));
    bytes_add_up(head, word + tail);
    bytes_add_up(word, tail);
    let all = encode_utf8(text) + data;
    let from = encode_utf8(head).len() as int;
    let len = encode_utf8(word).len() as int;
    assert(all.subrange(from, from + len) =~= encode_utf8(word));
    assert(stands_at(all, encode_utf8(word), from));
}

/// One of the notices speaks of copyright.
proof fn slashes_speak_of_copyright()
    ensures
        "// Copyright (c) Microsoft Corporation.\n// Licensed under the MIT license.\n\n"@.subrange(
            4,
            12,
        ) == "opyright"@,
        "// Copyright (c) Microsoft Corporation.\n// Licensed under the MIT license.\n\n"@.len()
            == 76,
{
    reveal_strlit(
        "// Copyright (c) Microsoft Corporation.\n// Licensed under the MIT license.\n\n",
    );
    reveal_strlit("opyright");
    assert("// Copyright (c) Microsoft Corporation.\n// Licensed under the MIT license.\n\n"@.subrange(
        4,
        12,
    ) =~= "opyright"@);
}

/// One of the notices speaks of copyright.
proof fn script_speak_of_copyright()
    ensures
        "#! /bin/bash\n\n# Copyright (c) Microsoft Corporation.\n# Licensed under the MIT license.\n\n"@.subrange(
            17,
            25,
        ) == "opyright"@,
        "#! /bin/bash\n\n# Copyright (c) Microsoft Corporation.\n# Licensed under the MIT license.\n\n"@.len()
            == 88,
{
    reveal_strlit(
        "#! /bin/bash\n\n# Copyright (c) Microsoft Corporation.\n# Licensed under the MIT license.\n\n",
    );
    reveal_strlit("opyright");
    assert("#! /bin/bash\n\n# Copyright (c) Microsoft Corporation.\n# Licensed under the MIT license.\n\n"@.subrange(
        17,
        25,
    ) =~= "opyright"@);
}

/// One of the notices speaks of copyright.
proof fn assembly_speak_of_copyright()
    ensures
        "/* Copyright (c) Microsoft Corporation.\n   Licensed under the MIT license. */\n\n"@.subrange(
            4,
            12,
        ) == "opyright"@,
        "/* Copyright (c) Microsoft Corporation.\n   Licensed under the MIT license. */\n\n"@.len()
            == 79,
{
    reveal_strlit(
        "/* Copyright (c) Microsoft Corporation.\n   Licensed under the MIT license. */\n\n",
    );
    reveal_strlit("opyright");
    assert("/* Copyright (c) Microsoft Corporation.\n   Licensed under the MIT license. */\n\n"@.subrange(
        4,
        12,
    ) =~= "opyright"@);
}

/// One of the notices speaks of copyright.
proof fn markup_speak_of_copyright()
    ensures
        "<!-- Copyright (c) Microsoft Corporation.\n     Licensed under the MIT license. -->\n"@.subrange(
            6,
            14,
        ) == "opyright"@,
        "<!-- Copyright (c) Microsoft Corporation.\n     Licensed under the MIT license. -->\n"@.len()
            == 83,
{
    reveal_strlit(
        "<!-- Copyright (c) Microsoft Corporation.\n     Licensed under the MIT license. -->\n",
    );
    reveal_strlit("opyright");
    assert("<!-- Copyright (c) Microsoft Corporation.\n     Licensed under the MIT license. -->\n"@.subrange(
        6,
        14,
    ) =~= "opyright"@);
}

/// One of the notices speaks of copyright.
proof fn styles_speak_of_copyright()
    ensures
        "/* Copyright (c) Microsoft Corporation.\n   Licensed under the MIT license. */\n"@.subrange(
            4,
            12,
        ) == "opyright"@,
        "/* Copyright (c) Microsoft Corporation.\n   Licensed under the MIT license. */\n"@.len()
            == 78,
{
    reveal_strlit(
        "/* Copyright (c) Microsoft Corporation.\n   Licensed under the MIT license. */\n",
    );
    reveal_strlit("opyright");
    assert("/* Copyright (c) Microsoft Corporation.\n   Licensed under the MIT license. */\n"@.subrange(
        4,
        12,
    ) =~= "opyright"@);
}

/// One of the notices speaks of copyright.
proof fn python_speak_of_copyright()
    ensures
        "#!/usr/bin/env python3\n\n# Copyright (c) Microsoft Corporation.\n# Licensed under the MIT license.\n"@.subrange(
            27,
            35,
        ) == "opyright"@,
        "#!/usr/bin/env python3\n\n# Copyright (c) Microsoft Corporation.\n# Licensed under the MIT license.\n"@.len()
            == 97,
{
    reveal_strlit(
        "#!/usr/bin/env python3\n\n# Copyright (c) Microsoft Corporation.\n# Licensed under the MIT license.\n",
    );
    reveal_strlit("opyright");
    assert("#!/usr/bin/env python3\n\n# Copyright (c) Microsoft Corporation.\n# Licensed under the MIT license.\n"@.subrange(
        27,
        35,
    ) =~= "opyright"@);
}

/// A file that was given its notice is not given another: it speaks of copyright
/// from then on.
pub proof fn notices_are_not_added_twice(ext: Seq<char>, data: Seq<u8>)
    requires
        prefix_of(ext) is Some,
        prefix_of(ext)->0.len() > 0,
    ensures
        holds_word(encode_utf8(prefix_of(ext)->0) + data, encode_utf8("opyright"@)),
{
    reveal_strlit("");
    reveal_strlit("opyright");
    slashes_speak_of_copyright();
    script_speak_of_copyright();
    assembly_speak_of_copyright();
    markup_speak_of_copyright();
    styles_speak_of_copyright();
    python_speak_of_copyright();
    let prefix = prefix_of(ext)->0;
    if prefix.subrange(4, 12) == "opyright"@ {
        words_stand_in_bytes(prefix, 4, "opyright"@, data);
    } else if prefix.subrange(17, 25) == "opyright"@ {
        words_stand_in_bytes(prefix, 17, "opyright"@, data);
    } else if prefix.subrange(6, 14) == "opyright"@ {
        words_stand_in_bytes(prefix, 6, "opyright"@, data);
    } else {
        words_stand_in_bytes(prefix, 27, "opyright"@, data);
    }
}

} // verus!
