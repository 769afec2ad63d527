//! What holds of the names on both sides of a mount.

use vstd::prelude::*;
use vstd::string::*;
use vstd::utf8::{char_is_scalar, encode_scalar, encode_utf8};

use crate::names::{
    decrypted_name, decrypted_target, directory_metadata_target, directory_target, encrypted_target,
    marked_name, sanitized_name, with_file_name, without_encrypted, DIRECTORY_METADATA_FILE_NAME,
    MAX_COMPONENT_LEN,
};
use crate::path::{
    file_name, file_name_text, join, join_one_name, join_stripped, join_text, one_name, parent,
    same_path, sibling, starts_with, strip_joined, strip_prefix, NameView, PathView,
};
use crate::text::{char_bytes, fitting_from_fits, fitting_prefix, replaced, text_bytes};

verus! {

/// The path lies under the root, and what follows the root does not begin with `.`.
pub open spec fn plainly_under(path: PathView, root: PathView) -> bool {
    &&& starts_with(path, root)
    &&& path.absolute == root.absolute
    &&& path.names.len() > root.names.len() ==> path.names[root.names.len() as int]
        != NameView::Text("."@)
}

/// The name is one that the file of a path can have: text, one name, neither `.` nor `..`.
pub open spec fn plain_name(path: PathView, name: Seq<char>) -> bool {
    &&& path.names.len() > 0
    &&& path.names.last() == NameView::Text(name)
    &&& one_name(name)
    &&& name != "."@
    &&& name != ".."@
}

proof fn ends_encrypted(name: Seq<char>)
    requires
        one_name(name),
    ensures
        one_name(name + ".encrypted"@),
        name + ".encrypted"@ != "."@,
        name + ".encrypted"@ != ".."@,
        !".encrypted"@.is_suffix_of(name) ==> without_encrypted(name + ".encrypted"@) == name,
{
    reveal_strlit(".encrypted");
    reveal_strlit(".");
    reveal_strlit("..");
    let whole = name + ".encrypted"@;
    assert(!whole.contains('/')) by {
        if whole.contains('/') {
            let i = choose|i: int| 0 <= i < whole.len() && whole[i] == '/';
            if i < name.len() {
                assert(name[i] == '/');
                assert(name.contains('/'));
            } else {
                assert(".encrypted"@[i - name.len()] == '/');
            }
        }
    }
    assert(".encrypted"@.is_suffix_of(whole)) by {
        assert(whole.skip(name.len() as int) =~= ".encrypted"@);
    }
    assert(whole.take(whole.len() - 10) =~= name);
    reveal_with_fuel(without_encrypted, 2);
}

/// A mounted file is found again from its encrypted form: the encrypted path leads back to the
/// mounted one, or, where a name is stored with it, to the file of that name beside it. Without a
/// stored name this needs the name of the mounted file not to end in `.encrypted` itself.
pub proof fn mounted_path_comes_back(
    encrypted_root: PathView,
    mount_root: PathView,
    path: PathView,
    name: Seq<char>,
    stored: Option<Seq<char>>,
)
    requires
        plainly_under(path, mount_root),
        path.names.len() > mount_root.names.len(),
        plain_name(path, name),
        stored is None ==> !".encrypted"@.is_suffix_of(name),
    ensures
        encrypted_target(encrypted_root, mount_root, path) is Some,
        decrypted_target(
            encrypted_root,
            encrypted_target(encrypted_root, mount_root, path)->0,
            mount_root,
            stored,
        ) is Some,
        same_path(
            decrypted_target(
                encrypted_root,
                encrypted_target(encrypted_root, mount_root, path)->0,
                mount_root,
                stored,
            )->0,
            match stored {
                Some(original) => with_file_name(path, original),
                None => path,
            },
        ),
        same_path(with_file_name(path, name), path),
{
    let relative = strip_prefix(path, mount_root)->0;
    let n = mount_root.names.len() as int;
    assert(relative.names == path.names.skip(n));
    assert(relative.names.last() == path.names.last());
    assert(file_name(relative) == Some(NameView::Text(name)));
    let coded = name + ".encrypted"@;
    ends_encrypted(name);
    let above = parent(relative)->0;
    join_one_name(above, coded);
    let inner = with_file_name(relative, coded);
    assert(inner.names =~= relative.names.drop_last().push(NameView::Text(coded)));
    assert(!inner.absolute);
    assert(inner.names[0] != NameView::Text("."@)) by {
        if relative.names.len() > 1 {
            assert(inner.names[0] == path.names[n]);
        } else {
            assert(inner.names[0] == NameView::Text(coded));
        }
    }
    strip_joined(encrypted_root, inner);
    let encrypted = join(encrypted_root, inner);
    assert(encrypted_target(encrypted_root, mount_root, path) == Some(encrypted));
    assert(encrypted.names.last() == NameView::Text(coded));
    assert(file_name_text(encrypted) == Some(coded));
    let placed = join(mount_root, inner);
    assert(placed.names =~= mount_root.names + inner.names);
    assert(file_name(placed) == Some(NameView::Text(coded)));
    join_one_name(parent(placed)->0, name);
    assert(placed.names.drop_last() =~= path.names.drop_last());
    assert(same_path(parent(placed)->0, parent(path)->0));
    assert(path.names =~= path.names.drop_last().push(NameView::Text(name)));
    assert(sibling(placed, name).names =~= path.names);
    assert(file_name(path) == Some(NameView::Text(name)));
    match stored {
        Some(original) => {
            assert(decrypted_name(encrypted, stored) == original);
            assert(same_path(with_file_name(placed, original), with_file_name(path, original)));
        },
        None => {
            assert(decrypted_name(encrypted, stored) == name);
        },
    }
}

/// A path that is not below the encrypted root has no mounted form.
pub proof fn foreign_paths_are_not_mounted(
    encrypted_root: PathView,
    encrypted_path: PathView,
    mount_root: PathView,
    stored: Option<Seq<char>>,
)
    ensures
        decrypted_target(encrypted_root, encrypted_path, mount_root, stored) is None <==> !starts_with(
            encrypted_path,
            encrypted_root,
        ),
{
}

/// A mounted directory is found again from its encrypted metadata.
pub proof fn mounted_directory_comes_back(
    encrypted_root: PathView,
    mount_root: PathView,
    directory: PathView,
)
    requires
        plainly_under(directory, mount_root),
    ensures
        directory_metadata_target(encrypted_root, mount_root, directory) is Some,
        directory_target(
            encrypted_root,
            directory_metadata_target(encrypted_root, mount_root, directory)->0,
            mount_root,
        ) is Some,
        same_path(
            directory_target(
                encrypted_root,
                directory_metadata_target(encrypted_root, mount_root, directory)->0,
                mount_root,
            )->0,
            directory,
        ),
{
    reveal_strlit(".hybridcipher_dir.encrypted");
    reveal_strlit(".");
    let name = DIRECTORY_METADATA_FILE_NAME@;
    assert(name.len() == 27);
    assert(!name.contains('/'));
    let relative = strip_prefix(directory, mount_root)->0;
    let n = mount_root.names.len() as int;
    assert(!relative.absolute);
    if relative.names.len() > 0 {
        assert(relative.names[0] == directory.names[n]);
    }
    let inner = join_text(relative, name);
    join_one_name(relative, name);
    join_one_name(join(encrypted_root, relative), name);
    assert(join(encrypted_root, inner).names =~= join(encrypted_root, relative).names.push(
        NameView::Text(name),
    ));
    strip_joined(encrypted_root, inner);
    assert(parent(inner)->0.names =~= relative.names);
    join_stripped(directory, mount_root);
}

/// The bytes of two texts, one after the other, are the bytes of both.
pub proof fn joined_bytes(a: Seq<char>, b: Seq<char>)
    ensures
        text_bytes(a + b) == text_bytes(a) + text_bytes(b),
    decreases b.len(),
{
    if b.len() == 0 {
        assert(a + b =~= a);
    } else {
        joined_bytes(a, b.drop_last());
        assert((a + b).drop_last() =~= a + b.drop_last());
    }
}

/// The number of bytes of a text is the length of its UTF-8 form.
pub proof fn text_bytes_are_utf8(text: Seq<char>)
    ensures
        text_bytes(text) == encode_utf8(text).len(),
    decreases text.len(),
{
    if text.len() > 0 {
        let rest = text.drop_first();
        text_bytes_are_utf8(rest);
        let first = seq![text[0]];
        joined_bytes(first, rest);
        assert(first + rest =~= text);
        assert(first.drop_last() =~= Seq::<char>::empty());
        reveal_with_fuel(text_bytes, 2);
        assert(text_bytes(first) == char_bytes(text[0]));
        char_is_scalar(text[0]);
        assert(encode_scalar(text[0] as u32).len() == char_bytes(text[0]));
    }
}

proof fn prefix_has_no_more(text: Seq<char>, limit: nat)
    ensures
        text_bytes(fitting_prefix(text, limit)) <= limit,
        forall|c: char| fitting_prefix(text, limit).contains(c) ==> text.contains(c),
{
    fitting_from_fits(text, limit, text.len() as int);
    let part = fitting_prefix(text, limit);
    assert forall|c: char| part.contains(c) implies text.contains(c) by {
        let i = choose|i: int| 0 <= i < part.len() && part[i] == c;
        assert(text[i] == c);
    }
}

/// A name with a mark is never too long, and has a slash only where one of its parts has.
pub proof fn marked_names_fit(name: Seq<char>, marker: Seq<char>, file_id: Seq<char>)
    requires
        text_bytes("."@ + marker + "-"@) + 12 <= MAX_COMPONENT_LEN,
    ensures
        text_bytes(marked_name(name, marker, file_id)) <= MAX_COMPONENT_LEN,
        marked_name(name, marker, file_id).len() >= 2 + marker.len(),
        !name.contains('/') && !marker.contains('/') && !file_id.contains('/') ==> !marked_name(
            name,
            marker,
            file_id,
        ).contains('/'),
{
    reveal(marked_name);
    reveal_strlit(".");
    reveal_strlit("-");
    let suffix = fitting_prefix(file_id, 12);
    let mark = "."@ + marker + "-"@;
    prefix_has_no_more(file_id, 12);
    let room = (MAX_COMPONENT_LEN - text_bytes(mark) - text_bytes(suffix)) as nat;
    prefix_has_no_more(name, room);
    let base = fitting_prefix(name, room);
    joined_bytes(base, mark);
    joined_bytes(base + mark, suffix);
    let whole = base + mark + suffix;
    assert(whole == marked_name(name, marker, file_id));
    if !name.contains('/') && !marker.contains('/') && !file_id.contains('/') {
        if whole.contains('/') {
            let i = choose|i: int| 0 <= i < whole.len() && whole[i] == '/';
            if i < base.len() {
                assert(base[i] == '/');
                assert(base.contains('/'));
            } else if i < base.len() + mark.len() {
                let k = i - base.len();
                assert(mark[k] == '/');
                if 0 < k < mark.len() - 1 {
                    assert(marker[k - 1] == '/');
                    assert(marker.contains('/'));
                }
            } else {
                assert(suffix[i - base.len() - mark.len()] == '/');
                assert(suffix.contains('/'));
            }
        }
    }
}

/// The name that a mounted file is given can be had: it is one name, neither `.` nor `..`, and not
/// too long.
pub proof fn given_names_can_be_had(name: Seq<char>, file_id: Seq<char>)
    requires
        !file_id.contains('/'),
    ensures
        one_name(sanitized_name(name, file_id)),
        sanitized_name(name, file_id) != "."@,
        sanitized_name(name, file_id) != ".."@,
        text_bytes(sanitized_name(name, file_id)) <= MAX_COMPONENT_LEN,
{
    reveal_strlit(".");
    reveal_strlit("..");
    reveal_strlit("-");
    reveal_strlit("unnamed");
    reveal_strlit("sanitized");
    let flat = replaced(name, '/', '_');
    assert(!flat.contains('/')) by {
        if flat.contains('/') {
            let i = choose|i: int| 0 <= i < flat.len() && flat[i] == '/';
            assert(false);
        }
    }
    let named = if flat.len() == 0 || flat == "."@ || flat == ".."@ {
        "unnamed"@
    } else {
        flat
    };
    assert(!"unnamed"@.contains('/'));
    assert(!"sanitized"@.contains('/'));
    let mark = "."@ + "sanitized"@ + "-"@;
    assert(text_bytes(mark) == 11) by {
        reveal_with_fuel(text_bytes, 12);
    }
    if text_bytes(named) > MAX_COMPONENT_LEN {
        marked_names_fit(named, "sanitized"@, file_id);
    }
}

} // verus!
