//! What holds of the grammar of tags.
//!
//! `parse_tag` reads a tag from left to right. The laws here say that it
//! reads exactly the tags that the grammar writes, each as the parts it was
//! written from, and that what it reads stands for a version that is
//! written as versions are.

use crate::version::{
    decimal_value, digits_at, digits_from, has_char_at, is_digit, is_number,
    is_semantic_version, lemma_digits_from, marker_at, marker_len, normalized_version,
    parse_tag, PythonVersion,
};
use vstd::prelude::*;

verus! {

/// The version of well-formed parts is written as a version is listed.
pub proof fn lemma_version_text_is_semantic(version: PythonVersion)
    requires
        version.well_formed(),
    ensures
        version.normalized().well_formed(),
        is_semantic_version(version.version_text()),
{
    assert(is_number("0"@)) by {
        reveal_strlit("0");
        reveal_with_fuel(decimal_value, 2);
    }
}

/// A run of `count` digits from `from` on, with no digit after it, is what
/// `digits_from` counts.
pub proof fn lemma_digits_run(s: Seq<char>, from: int, count: nat)
    requires
        0 <= from,
        from + count <= s.len(),
        forall|i: int| from <= i < from + count ==> is_digit(#[trigger] s[i]),
        from + count < s.len() ==> !is_digit(s[from + count]),
    ensures
        digits_from(s, from) == count,
    decreases count,
{
    if count > 0 {
        lemma_digits_run(s, from + 1, (count - 1) as nat);
    }
}

/// Two stretches of `s` that meet make one stretch.
proof fn lemma_stretches_join(s: Seq<char>, from: int, mid: int, to: int)
    requires
        0 <= from <= mid <= to <= s.len(),
    ensures
        s.subrange(from, mid) + s.subrange(mid, to) == s.subrange(from, to),
{
    assert(s.subrange(from, mid) + s.subrange(mid, to) =~= s.subrange(from, to));
}

/// What `parse_tag` reads is written as the grammar says: parts that are
/// numbers, which spell the tag.
pub proof fn lemma_parse_tag_sound(tag: Seq<char>)
    requires
        parse_tag(tag) is Some,
    ensures
        parse_tag(tag)->0.well_formed(),
        parse_tag(tag)->0.tag_text() == tag,
{
    let version = parse_tag(tag)->0;
    let major_at = if version.prefixed {
        1int
    } else {
        0int
    };
    let dot_at = major_at + version.major.len();
    let minor_end = dot_at + 1 + version.minor.len();
    let patch_end = match version.patch {
        Some(patch) => minor_end + 1 + patch.len(),
        None => minor_end,
    };
    let len = tag.len() as int;
    lemma_digits_from(tag, major_at);
    lemma_digits_from(tag, dot_at + 1);
    if version.patch is Some {
        lemma_digits_from(tag, minor_end + 1);
    }
    let prefix = if version.prefixed {
        "v"@
    } else {
        ""@
    };
    let patch_text = match version.patch {
        Some(patch) => "."@ + patch,
        None => ""@,
    };
    let pre_text = match version.pre {
        Some((marker, number)) => marker.tag_text() + number,
        None => ""@,
    };
    assert(0 <= major_at <= dot_at < minor_end <= patch_end <= len);
    assert(tag.subrange(0, major_at) == prefix) by {
        reveal_strlit("v");
        reveal_strlit("");
        assert(tag.subrange(0, major_at) =~= prefix);
    }
    assert(tag.subrange(major_at, dot_at) == version.major);
    assert(tag.subrange(dot_at, dot_at + 1) == "."@) by {
        reveal_strlit(".");
        assert(tag.subrange(dot_at, dot_at + 1) =~= "."@);
    }
    assert(tag.subrange(dot_at + 1, minor_end) == version.minor);
    assert(tag.subrange(minor_end, patch_end) == patch_text) by {
        reveal_strlit(".");
        reveal_strlit("");
        match version.patch {
            Some(patch) => {
                assert(tag.subrange(minor_end + 1, patch_end) == patch);
                assert(tag.subrange(minor_end, minor_end + 1) =~= "."@);
                lemma_stretches_join(tag, minor_end, minor_end + 1, patch_end);
            },
            None => {
                assert(tag.subrange(minor_end, patch_end) =~= ""@);
            },
        }
    }
    assert(tag.subrange(patch_end, len) == pre_text) by {
        reveal_strlit("");
        reveal_strlit("a");
        reveal_strlit("b");
        reveal_strlit("c");
        reveal_strlit("rc");
        match version.pre {
            Some((marker, number)) => {
                let number_at = patch_end + marker_len(marker);
                lemma_digits_from(tag, number_at);
                assert(tag.subrange(number_at, len) == number);
                assert(tag.subrange(patch_end, number_at) =~= marker.tag_text());
                lemma_stretches_join(tag, patch_end, number_at, len);
            },
            None => {
                assert(tag.subrange(patch_end, len) =~= ""@);
            },
        }
    }
    lemma_stretches_join(tag, 0, major_at, dot_at);
    lemma_stretches_join(tag, 0, dot_at, dot_at + 1);
    lemma_stretches_join(tag, 0, dot_at + 1, minor_end);
    lemma_stretches_join(tag, 0, minor_end, patch_end);
    lemma_stretches_join(tag, 0, patch_end, len);
    assert(tag.subrange(0, len) =~= tag);
}

impl PythonVersion {
    /// Where the major number starts in the tag.
    spec fn major_at(self) -> int {
        if self.prefixed {
            1
        } else {
            0
        }
    }

    /// Where the dot after the major number stands.
    spec fn dot_at(self) -> int {
        self.major_at() + self.major.len()
    }

    /// Where the minor number ends.
    spec fn minor_end(self) -> int {
        self.dot_at() + 1 + self.minor.len()
    }

    /// Where the patch number ends, or the minor number where there is none.
    spec fn patch_end(self) -> int {
        match self.patch {
            Some(patch) => self.minor_end() + 1 + patch.len(),
            None => self.minor_end(),
        }
    }

    /// Where the number of the pre-release starts.
    spec fn number_at(self) -> int {
        match self.pre {
            Some((marker, _)) => self.patch_end() + marker_len(marker),
            None => self.patch_end(),
        }
    }

    /// Where the tag ends.
    spec fn end(self) -> int {
        match self.pre {
            Some((_, number)) => self.number_at() + number.len(),
            None => self.patch_end(),
        }
    }
}

/// A stretch of the first of two joined sequences is a stretch of the whole.
proof fn lemma_stretch_of_front(front: Seq<char>, back: Seq<char>, from: int, to: int)
    requires
        0 <= from <= to <= front.len(),
    ensures
        (front + back).subrange(from, to) == front.subrange(from, to),
{
    assert((front + back).subrange(from, to) =~= front.subrange(from, to));
}

/// The second of two joined sequences is the stretch behind the first.
proof fn lemma_stretch_of_back(front: Seq<char>, back: Seq<char>)
    ensures
        (front + back).subrange(front.len() as int, (front.len() + back.len()) as int) == back,
        (front + back).len() == front.len() + back.len(),
        front.subrange(0, front.len() as int) == front,
{
    assert((front + back).subrange(front.len() as int, (front.len() + back.len()) as int) =~= back);
    assert(front.subrange(0, front.len() as int) =~= front);
}

/// Where the parts of a version stand in its tag.
proof fn lemma_tag_layout(version: PythonVersion)
    ensures
        version.tag_text().len() == version.end(),
        version.tag_text().subrange(0, version.major_at()) == if version.prefixed {
            "v"@
        } else {
            ""@
        },
        version.tag_text().subrange(version.major_at(), version.dot_at()) == version.major,
        version.tag_text().subrange(version.dot_at(), version.dot_at() + 1) == "."@,
        version.tag_text().subrange(version.dot_at() + 1, version.minor_end()) == version.minor,
        version.tag_text().subrange(version.minor_end(), version.patch_end())
            == match version.patch {
            Some(patch) => "."@ + patch,
            None => ""@,
        },
        version.tag_text().subrange(version.patch_end(), version.end()) == match version.pre {
            Some((marker, number)) => marker.tag_text() + number,
            None => ""@,
        },
{
    reveal_strlit("v");
    reveal_strlit("");
    reveal_strlit(".");
    reveal_strlit("a");
    reveal_strlit("b");
    reveal_strlit("c");
    reveal_strlit("rc");
    let prefix = if version.prefixed {
        "v"@
    } else {
        ""@
    };
    let patch_text = match version.patch {
        Some(patch) => "."@ + patch,
        None => ""@,
    };
    let pre_text = match version.pre {
        Some((marker, number)) => marker.tag_text() + number,
        None => ""@,
    };
    let upto_major = prefix + version.major;
    let upto_dot = upto_major + "."@;
    let upto_minor = upto_dot + version.minor;
    let upto_patch = upto_minor + patch_text;
    let tag = upto_patch + pre_text;
    assert(tag == version.tag_text());
    lemma_stretch_of_back(prefix, version.major);
    lemma_stretch_of_back(upto_major, "."@);
    lemma_stretch_of_back(upto_dot, version.minor);
    lemma_stretch_of_back(upto_minor, patch_text);
    lemma_stretch_of_back(upto_patch, pre_text);
    assert(upto_patch.len() == version.patch_end());
    assert(tag.len() == version.end());
    // The prefix.
    lemma_stretch_of_front(prefix, version.major, 0, version.major_at());
    lemma_stretch_of_front(upto_major, "."@, 0, version.major_at());
    lemma_stretch_of_front(upto_dot, version.minor, 0, version.major_at());
    lemma_stretch_of_front(upto_minor, patch_text, 0, version.major_at());
    lemma_stretch_of_front(upto_patch, pre_text, 0, version.major_at());
    // The major number.
    lemma_stretch_of_front(upto_major, "."@, version.major_at(), version.dot_at());
    lemma_stretch_of_front(upto_dot, version.minor, version.major_at(), version.dot_at());
    lemma_stretch_of_front(upto_minor, patch_text, version.major_at(), version.dot_at());
    lemma_stretch_of_front(upto_patch, pre_text, version.major_at(), version.dot_at());
    // The dot.
    lemma_stretch_of_front(upto_dot, version.minor, version.dot_at(), version.dot_at() + 1);
    lemma_stretch_of_front(upto_minor, patch_text, version.dot_at(), version.dot_at() + 1);
    lemma_stretch_of_front(upto_patch, pre_text, version.dot_at(), version.dot_at() + 1);
    // The minor number.
    lemma_stretch_of_front(upto_minor, patch_text, version.dot_at() + 1, version.minor_end());
    lemma_stretch_of_front(upto_patch, pre_text, version.dot_at() + 1, version.minor_end());
    // The patch number.
    lemma_stretch_of_front(upto_patch, pre_text, version.minor_end(), version.patch_end());
}

/// The digits at `at` are `number`, where `number` stands there and no
/// digit follows it.
proof fn lemma_digits_at(tag: Seq<char>, at: int, number: Seq<char>)
    requires
        0 <= at,
        at + number.len() <= tag.len(),
        tag.subrange(at, at + number.len()) == number,
        forall|i: int| 0 <= i < number.len() ==> is_digit(#[trigger] number[i]),
        at + number.len() < tag.len() ==> !is_digit(tag[at + number.len()]),
    ensures
        digits_at(tag, at) == number,
{
    assert forall|i: int| at <= i < at + number.len() implies is_digit(#[trigger] tag[i]) by {
        assert(tag[i] == number[i - at]);
    }
    lemma_digits_run(tag, at, number.len());
}

/// Every tag that is written as the grammar says is read by `parse_tag`, and
/// read as the parts it was written from.
pub proof fn lemma_parse_tag_complete(version: PythonVersion)
    requires
        version.well_formed(),
    ensures
        parse_tag(version.tag_text()) == Some(version),
{
    let tag = version.tag_text();
    lemma_tag_layout(version);
    let major_at = version.major_at();
    let dot_at = version.dot_at();
    let minor_end = version.minor_end();
    let patch_end = version.patch_end();
    let number_at = version.number_at();
    assert(has_char_at(tag, 0, 'v') == version.prefixed) by {
        reveal_strlit("v");
        reveal_strlit("");
        assert(is_digit(version.major[0]));
        if version.prefixed {
            assert(tag.subrange(0, 1)[0] == 'v');
        } else {
            assert(tag.subrange(major_at, dot_at)[0] == version.major[0]);
        }
    }
    assert(has_char_at(tag, dot_at, '.')) by {
        reveal_strlit(".");
        assert(tag.subrange(dot_at, dot_at + 1)[0] == '.');
    }
    lemma_digits_at(tag, major_at, version.major);
    assert(has_char_at(tag, minor_end, '.') == version.patch is Some && (version.patch matches Some(
        patch,
    ) ==> tag.subrange(minor_end + 1, patch_end) == patch)) by {
        reveal_strlit(".");
        reveal_strlit("");
        let patch_text = tag.subrange(minor_end, patch_end);
        match version.patch {
            Some(patch) => {
                assert(patch_text[0] == '.');
                assert(tag.subrange(minor_end + 1, patch_end) =~= patch_text.subrange(
                    1,
                    1 + patch.len() as int,
                ));
                assert(patch_text.subrange(1, 1 + patch.len() as int) =~= patch);
            },
            None => {
                lemma_marker_is_no_dot(version);
            },
        }
    }
    assert(marker_at(tag, patch_end) == match version.pre {
        Some((marker, _)) => Some(marker),
        None => None,
    } && (version.pre matches Some((_, number)) ==> tag.subrange(number_at, version.end())
        == number)) by {
        reveal_strlit("");
        reveal_strlit("a");
        reveal_strlit("b");
        reveal_strlit("c");
        reveal_strlit("rc");
        let pre_text = tag.subrange(patch_end, version.end());
        match version.pre {
            Some((marker, number)) => {
                assert(pre_text[0] == marker.tag_text()[0]);
                if marker is Rc {
                    assert(pre_text[1] == marker.tag_text()[1]);
                }
                assert(tag.subrange(number_at, version.end()) =~= pre_text.subrange(
                    marker_len(marker),
                    marker_len(marker) + number.len(),
                ));
                assert(pre_text.subrange(marker_len(marker), marker_len(marker) + number.len())
                    =~= number);
            },
            None => {},
        }
    }
    assert(minor_end < tag.len() ==> !is_digit(tag[minor_end])) by {
        lemma_marker_is_no_dot(version);
    }
    lemma_digits_at(tag, dot_at + 1, version.minor);
    match version.patch {
        Some(patch) => {
            assert(patch_end < tag.len() ==> !is_digit(tag[patch_end])) by {
                lemma_marker_is_no_dot(version);
            }
            lemma_digits_at(tag, minor_end + 1, patch);
        },
        None => {},
    }
    match version.pre {
        Some((marker, number)) => {
            lemma_digits_at(tag, number_at, number);
        },
        None => {},
    }
}

/// What stands behind the patch number, or behind the minor number where
/// there is no patch number, is the tag's end or the first letter of a
/// marker: no digit and no dot.
proof fn lemma_marker_is_no_dot(version: PythonVersion)
    ensures
        version.patch_end() < version.tag_text().len() ==> !is_digit(
            version.tag_text()[version.patch_end()],
        ) && version.tag_text()[version.patch_end()] != '.',
        version.patch_end() == version.tag_text().len() <==> version.pre is None,
        version.patch is Some ==> version.tag_text()[version.minor_end()] == '.',
{
    lemma_tag_layout(version);
    reveal_strlit("");
    reveal_strlit(".");
    reveal_strlit("a");
    reveal_strlit("b");
    reveal_strlit("c");
    reveal_strlit("rc");
    let tag = version.tag_text();
    let pre_text = tag.subrange(version.patch_end(), version.end());
    match version.pre {
        Some((marker, number)) => {
            assert(pre_text[0] == marker.tag_text()[0]);
        },
        None => {},
    }
    let patch_text = tag.subrange(version.minor_end(), version.patch_end());
    if version.patch is Some {
        assert(patch_text[0] == '.');
    }
}

/// The grammar is the whole of `parse_tag`: a tag is read as `version`
/// exactly when `version` is well formed and spells the tag. So no tag is
/// spelled by two versions.
pub proof fn lemma_parse_tag_is_the_grammar(tag: Seq<char>, version: PythonVersion)
    ensures
        parse_tag(tag) == Some(version) <==> version.well_formed() && version.tag_text() == tag,
{
    if parse_tag(tag) == Some(version) {
        lemma_parse_tag_sound(tag);
    }
    if version.well_formed() && version.tag_text() == tag {
        lemma_parse_tag_complete(version);
    }
}

/// The version that a tag stands for is written as a version is listed.
pub proof fn lemma_normalized_version_is_semantic(tag: Seq<char>)
    requires
        normalized_version(tag) is Some,
    ensures
        is_semantic_version(normalized_version(tag)->0),
{
    lemma_parse_tag_sound(tag);
    lemma_version_text_is_semantic(parse_tag(tag)->0);
}

} // verus!
