//! What holds of every mesh that face lines give.

use vstd::prelude::*;
use crate::error::ResultErrorView;
use crate::importer::indexing::add_corner;
use crate::importer::indexing::add_faces;
use crate::importer::indexing::corner_vertex;
use crate::importer::indexing::corners_from;
use crate::importer::indexing::indexed;
use crate::importer::indexing::lemma_failure_stays;
use crate::importer::indexing::lemma_three_corners;
use crate::importer::indexing::reference;
use crate::importer::indexing::BuffersView;
use crate::importer::indexing::CornerView;
use crate::importer::indexing::Indexed;
use crate::number::all_digits;
use crate::number::is_digit;
use crate::pattern::GroupsView;

verus! {

/// Corner `c`, from 0, of the face line `face`.
pub open spec fn corner(found: Seq<Option<GroupsView>>, face: int, c: int) -> CornerView {
    corners_from(found[face])->0[c]
}

/// The composite references that the first `count` face lines write.
pub open spec fn references(found: Seq<Option<GroupsView>>, count: int) -> Set<Seq<char>> {
    Set::new(
        |key: Seq<char>|
            exists|face: int, c: int|
                0 <= face < count && 0 <= c < 3 && reference(#[trigger] corner(found, face, c)) == key,
    )
}

/// Whether entry `i` of the index sequence designates the vertex that
/// stands for the composite reference of `corner`, whose indices are in range.
pub open spec fn placed(buffers: BuffersView, mesh: Indexed, i: int, corner: CornerView) -> bool {
    &&& 0 <= i < mesh.indices.len()
    &&& mesh.indices[i] < mesh.keys.len()
    &&& mesh.keys[mesh.indices[i] as int] == reference(corner)
    &&& corner_vertex(buffers, corner) is Some
}

/// Whether vertex `j` stands for the composite reference of `corner` and
/// holds what the corner's indices designate.
pub open spec fn made(buffers: BuffersView, mesh: Indexed, j: int, corner: CornerView) -> bool {
    &&& mesh.keys[j] == reference(corner)
    &&& corner_vertex(buffers, corner) == Some(mesh.vertices[j])
}

/// Whether vertex `j` was made for one of the corners before corner
/// `corners` of face `faces`.
pub open spec fn sourced(
    buffers: BuffersView,
    found: Seq<Option<GroupsView>>,
    faces: int,
    corners: int,
    mesh: Indexed,
    j: int,
) -> bool {
    exists|face: int, c: int|
        before(faces, corners, face, c) && #[trigger] made(buffers, mesh, j, corner(found, face, c))
}

/// Whether corner `c` of face `face` comes before corner `corners` of face `faces`.
pub open spec fn before(faces: int, corners: int, face: int, c: int) -> bool {
    0 <= face && 0 <= c < 3 && (face < faces || (face == faces && c < corners))
}

/// What holds of the mesh once the corners before corner `corners` of face
/// `faces` are taken in: one vertex per distinct reference, one index per
/// corner in the order of the source, every index in range.
pub open spec fn faithful(
    buffers: BuffersView,
    found: Seq<Option<GroupsView>>,
    faces: int,
    corners: int,
    mesh: Indexed,
) -> bool {
    &&& mesh.keys.len() == mesh.vertices.len()
    &&& mesh.keys.len() <= mesh.indices.len()
    &&& mesh.keys.len() <= u32::MAX + 1
    &&& mesh.keys.no_duplicates()
    &&& mesh.indices.len() == 3 * faces + corners
    &&& forall|face: int, c: int|
        before(faces, corners, face, c) ==> placed(
            buffers,
            mesh,
            3 * face + c,
            #[trigger] corner(found, face, c),
        )
    &&& forall|j: int|
        0 <= j < mesh.keys.len() ==> #[trigger] sourced(buffers, found, faces, corners, mesh, j)
}

/// One more corner keeps the mesh faithful.
proof fn lemma_corner_keeps_faithful(
    buffers: BuffersView,
    found: Seq<Option<GroupsView>>,
    faces: int,
    corners: int,
    mesh: Indexed,
)
    requires
        0 <= faces,
        0 <= corners < 3,
        faithful(buffers, found, faces, corners, mesh),
        add_corner(buffers, mesh, corner(found, faces, corners)) is Ok,
    ensures
        faithful(
            buffers,
            found,
            faces,
            corners + 1,
            add_corner(buffers, mesh, corner(found, faces, corners))->Ok_0,
        ),
{
    let next = add_corner(buffers, mesh, corner(found, faces, corners))->Ok_0;
    assert forall|j: int| 0 <= j < next.keys.len() implies #[trigger] sourced(
        buffers,
        found,
        faces,
        corners + 1,
        next,
        j,
    ) by {
        if j < mesh.keys.len() {
            assert(sourced(buffers, found, faces, corners, mesh, j));
            let (face, c) = choose|face: int, c: int|
                before(faces, corners, face, c) && #[trigger] made(
                    buffers,
                    mesh,
                    j,
                    corner(found, face, c),
                );
            assert(before(faces, corners + 1, face, c) && made(
                buffers,
                next,
                j,
                corner(found, face, c),
            ));
        } else {
            assert(before(faces, corners + 1, faces, corners) && made(
                buffers,
                next,
                j,
                corner(found, faces, corners),
            ));
        }
    }
}

/// The mesh of the first `count` face lines is faithful, and each of these
/// lines is a triangle.
proof fn lemma_faces_faithful(
    buffers: BuffersView,
    lines: Seq<Seq<char>>,
    found: Seq<Option<GroupsView>>,
    count: int,
)
    requires
        0 <= count,
        add_faces(buffers, lines, found, count) is Ok,
    ensures
        faithful(buffers, found, count, 0, add_faces(buffers, lines, found, count)->Ok_0),
        forall|face: int| 0 <= face < count ==> corners_from(#[trigger] found[face]) is Some,
    decreases count,
{
    if count > 0 {
        lemma_faces_faithful(buffers, lines, found, count - 1);
        let face = count - 1;
        let start = add_faces(buffers, lines, found, face)->Ok_0;
        let corners = corners_from(found[face])->0;
        lemma_three_corners(buffers, start, corners);
        let one = add_corner(buffers, start, corners[0])->Ok_0;
        let two = add_corner(buffers, one, corners[1])->Ok_0;
        let three = add_corner(buffers, two, corners[2])->Ok_0;
        lemma_corner_keeps_faithful(buffers, found, face, 0, start);
        lemma_corner_keeps_faithful(buffers, found, face, 1, one);
        lemma_corner_keeps_faithful(buffers, found, face, 2, two);
        assert(faithful(buffers, found, count, 0, three)) by {
            assert forall|j: int| 0 <= j < three.keys.len() implies #[trigger] sourced(
                buffers,
                found,
                count,
                0,
                three,
                j,
            ) by {
                assert(sourced(buffers, found, face, 3, three, j));
            }
        }
    }
}

/// Deduplication. Where the faces give a mesh, it has one vertex for each
/// distinct composite reference that the face lines write, no more and no
/// fewer, and three indices for each face line.
pub proof fn lemma_one_vertex_per_reference(
    buffers: BuffersView,
    lines: Seq<Seq<char>>,
    found: Seq<Option<GroupsView>>,
)
    requires
        indexed(buffers, lines, found) is Ok,
    ensures
        references(found, found.len() as int).finite(),
        references(found, found.len() as int).len() == indexed(
            buffers,
            lines,
            found,
        )->Ok_0.vertices.len(),
        indexed(buffers, lines, found)->Ok_0.indices.len() == 3 * found.len(),
{
    let count = found.len() as int;
    let mesh = indexed(buffers, lines, found)->Ok_0;
    lemma_faces_faithful(buffers, lines, found, count);
    assert(references(found, count) =~= mesh.keys.to_set()) by {
        assert forall|key: Seq<char>| mesh.keys.contains(key) implies references(
            found,
            count,
        ).contains(key) by {
            let j = choose|j: int| 0 <= j < mesh.keys.len() && mesh.keys[j] == key;
            assert(sourced(buffers, found, count, 0, mesh, j));
        }
    }
    mesh.keys.unique_seq_to_set();
    vstd::seq_lib::seq_to_set_is_finite(mesh.keys);
}

/// Winding. Where the faces give a mesh, the index sequence read in threes
/// gives back the corners of each face line in the order in which the line
/// writes them: entry `3 * face + c` designates the vertex that stands for
/// the composite reference of corner `c` of face line `face`.
pub proof fn lemma_winding_preserved(
    buffers: BuffersView,
    lines: Seq<Seq<char>>,
    found: Seq<Option<GroupsView>>,
    face: int,
    c: int,
)
    requires
        indexed(buffers, lines, found) is Ok,
        0 <= face < found.len(),
        0 <= c < 3,
    ensures
        corners_from(found[face]) is Some,
        placed(
            buffers,
            indexed(buffers, lines, found)->Ok_0,
            3 * face + c,
            corner(found, face, c),
        ),
        indexed(buffers, lines, found)->Ok_0.indices[3 * face + c] < indexed(
            buffers,
            lines,
            found,
        )->Ok_0.vertices.len(),
{
    lemma_faces_faithful(buffers, lines, found, found.len() as int);
    assert(before(found.len() as int, 0, face, c));
}

/// Two texts that a `/` follows, where the texts before it are digits, are
/// the same where the whole is the same.
proof fn lemma_split_at_stroke(a: Seq<char>, x: Seq<char>, b: Seq<char>, y: Seq<char>)
    requires
        all_digits(a),
        all_digits(b),
        a + seq!['/'] + x == b + seq!['/'] + y,
    ensures
        a == b,
        x == y,
{
    let s = a + seq!['/'] + x;
    let t = b + seq!['/'] + y;
    if a.len() < b.len() {
        assert(s[a.len() as int] == '/');
        assert(t[a.len() as int] == b[a.len() as int]);
        assert(is_digit(b[a.len() as int]));
    } else if b.len() < a.len() {
        assert(t[b.len() as int] == '/');
        assert(s[b.len() as int] == a[b.len() as int]);
        assert(is_digit(a[b.len() as int]));
    } else {
        assert(a =~= s.take(a.len() as int));
        assert(b =~= t.take(b.len() as int));
        assert(x =~= s.skip(a.len() as int + 1));
        assert(y =~= t.skip(b.len() as int + 1));
    }
}

/// Corners whose indices are in range and whose composite references are
/// the same are the same corner.
pub proof fn lemma_reference_tells_corner(buffers: BuffersView, a: CornerView, b: CornerView)
    requires
        corner_vertex(buffers, a) is Some,
        corner_vertex(buffers, b) is Some,
        reference(a) == reference(b),
    ensures
        a == b,
{
    assert(reference(a) =~= a.position + seq!['/'] + (a.texcoord + seq!['/'] + a.normal));
    assert(reference(b) =~= b.position + seq!['/'] + (b.texcoord + seq!['/'] + b.normal));
    lemma_split_at_stroke(
        a.position,
        a.texcoord + seq!['/'] + a.normal,
        b.position,
        b.texcoord + seq!['/'] + b.normal,
    );
    lemma_split_at_stroke(a.texcoord, a.normal, b.texcoord, b.normal);
}

/// Winding, in full. Where the faces give a mesh, entry `3 * face + c` of
/// the index sequence designates a vertex that holds the position, the
/// texture coordinate and the normal that corner `c` of face line `face`
/// names.
pub proof fn lemma_vertices_hold_corners(
    buffers: BuffersView,
    lines: Seq<Seq<char>>,
    found: Seq<Option<GroupsView>>,
    face: int,
    c: int,
)
    requires
        indexed(buffers, lines, found) is Ok,
        0 <= face < found.len(),
        0 <= c < 3,
    ensures
        0 <= 3 * face + c < indexed(buffers, lines, found)->Ok_0.indices.len(),
        indexed(buffers, lines, found)->Ok_0.indices[3 * face + c] < indexed(
            buffers,
            lines,
            found,
        )->Ok_0.vertices.len(),
        corner_vertex(buffers, corner(found, face, c)) == Some(
            indexed(buffers, lines, found)->Ok_0.vertices[indexed(
                buffers,
                lines,
                found,
            )->Ok_0.indices[3 * face + c] as int],
        ),
{
    let count = found.len() as int;
    let mesh = indexed(buffers, lines, found)->Ok_0;
    lemma_faces_faithful(buffers, lines, found, count);
    assert(before(count, 0, face, c));
    assert(placed(buffers, mesh, 3 * face + c, corner(found, face, c)));
    let j = mesh.indices[3 * face + c] as int;
    assert(sourced(buffers, found, count, 0, mesh, j));
    let (first_face, first_c) = choose|first_face: int, first_c: int|
        before(count, 0, first_face, first_c) && #[trigger] made(
            buffers,
            mesh,
            j,
            corner(found, first_face, first_c),
        );
    lemma_reference_tells_corner(
        buffers,
        corner(found, first_face, first_c),
        corner(found, face, c),
    );
}

/// The composite references of the first `count` face lines are finitely
/// many: at most three for each line.
pub proof fn lemma_references_bounded(found: Seq<Option<GroupsView>>, count: int)
    requires
        0 <= count,
    ensures
        references(found, count).finite(),
        references(found, count).len() <= 3 * count,
    decreases count,
{
    if count == 0 {
        assert(references(found, 0) =~= Set::<Seq<char>>::empty());
    } else {
        let face = count - 1;
        lemma_references_bounded(found, face);
        let earlier = references(found, face);
        let first = reference(corner(found, face, 0));
        let second = reference(corner(found, face, 1));
        let third = reference(corner(found, face, 2));
        let all = earlier.insert(first).insert(second).insert(third);
        assert(references(found, count) =~= all) by {
            assert forall|key: Seq<char>| references(found, count).contains(key) implies all.contains(
                key,
            ) by {
                let (f, c) = choose|f: int, c: int|
                    0 <= f < count && 0 <= c < 3 && reference(#[trigger] corner(found, f, c)) == key;
                if f < face {
                    assert(earlier.contains(key));
                }
            }
            assert forall|key: Seq<char>| all.contains(key) implies references(
                found,
                count,
            ).contains(key) by {
                if earlier.contains(key) {
                    let (f, c) = choose|f: int, c: int|
                        0 <= f < face && 0 <= c < 3 && reference(#[trigger] corner(found, f, c))
                            == key;
                    assert(0 <= f < count && reference(corner(found, f, c)) == key);
                } else if key == first {
                    assert(reference(corner(found, face, 0)) == key);
                } else if key == second {
                    assert(reference(corner(found, face, 1)) == key);
                } else {
                    assert(reference(corner(found, face, 2)) == key);
                }
            }
        }
        vstd::set::axiom_set_insert_finite(earlier, first);
        vstd::set::axiom_set_insert_len(earlier, first);
        vstd::set::axiom_set_insert_finite(earlier.insert(first), second);
        vstd::set::axiom_set_insert_len(earlier.insert(first), second);
        vstd::set::axiom_set_insert_finite(earlier.insert(first).insert(second), third);
        vstd::set::axiom_set_insert_len(earlier.insert(first).insert(second), third);
    }
}

/// Where the face lines write no more distinct references than a 32-bit
/// index can address, there is room for the vertex of a reference that the
/// mesh does not hold yet.
proof fn lemma_room_for_reference(
    buffers: BuffersView,
    found: Seq<Option<GroupsView>>,
    total: int,
    faces: int,
    corners: int,
    mesh: Indexed,
)
    requires
        0 <= faces < total,
        0 <= corners < 3,
        faithful(buffers, found, faces, corners, mesh),
        references(found, total).len() <= u32::MAX + 1,
        !mesh.keys.contains(reference(corner(found, faces, corners))),
    ensures
        mesh.keys.len() <= u32::MAX,
{
    let all = references(found, total);
    let new = reference(corner(found, faces, corners));
    let held = mesh.keys.to_set().insert(new);
    lemma_references_bounded(found, total);
    assert(held.subset_of(all)) by {
        assert forall|key: Seq<char>| held.contains(key) implies all.contains(key) by {
            if key == new {
                assert(reference(corner(found, faces, corners)) == key);
            } else {
                let j = choose|j: int| 0 <= j < mesh.keys.len() && mesh.keys[j] == key;
                assert(sourced(buffers, found, faces, corners, mesh, j));
                let (f, c) = choose|f: int, c: int|
                    before(faces, corners, f, c) && #[trigger] made(
                        buffers,
                        mesh,
                        j,
                        corner(found, f, c),
                    );
                assert(0 <= f < total && reference(corner(found, f, c)) == key);
            }
        }
    }
    vstd::set_lib::lemma_len_subset(held, all);
    mesh.keys.unique_seq_to_set();
    vstd::seq_lib::seq_to_set_is_finite(mesh.keys);
    vstd::set::axiom_set_insert_len(mesh.keys.to_set(), new);
}

/// Under that bound a corner of a face fails for its indices or not at all.
proof fn lemma_corner_fails_out_of_range(
    buffers: BuffersView,
    found: Seq<Option<GroupsView>>,
    total: int,
    faces: int,
    corners: int,
    mesh: Indexed,
)
    requires
        0 <= faces < total,
        0 <= corners < 3,
        faithful(buffers, found, faces, corners, mesh),
        references(found, total).len() <= u32::MAX + 1,
    ensures
        corner_vertex(buffers, corner(found, faces, corners)) is Some ==> add_corner(
            buffers,
            mesh,
            corner(found, faces, corners),
        ) is Ok,
        corner_vertex(buffers, corner(found, faces, corners)) is None ==> add_corner(
            buffers,
            mesh,
            corner(found, faces, corners),
        ) == Err::<Indexed, ResultErrorView>(ResultErrorView::IndexOutOfRange),
{
    if !mesh.keys.contains(reference(corner(found, faces, corners))) {
        lemma_room_for_reference(buffers, found, total, faces, corners, mesh);
    }
}

/// Where the first `count` face lines are triangles, and the lines write no
/// more distinct references than a 32-bit index can address, they give a
/// mesh or fail with `IndexOutOfRange`; they give a mesh where every index
/// is in range.
proof fn lemma_triangles_fail_out_of_range(
    buffers: BuffersView,
    lines: Seq<Seq<char>>,
    found: Seq<Option<GroupsView>>,
    total: int,
    count: int,
)
    requires
        0 <= count <= total,
        references(found, total).len() <= u32::MAX + 1,
        forall|face: int| 0 <= face < count ==> corners_from(#[trigger] found[face]) is Some,
    ensures
        add_faces(buffers, lines, found, count) is Ok || add_faces(buffers, lines, found, count)
            == Err::<Indexed, ResultErrorView>(ResultErrorView::IndexOutOfRange),
        (forall|face: int, c: int|
            0 <= face < count && 0 <= c < 3 ==> corner_vertex(
                buffers,
                #[trigger] corner(found, face, c),
            ) is Some) ==> add_faces(buffers, lines, found, count) is Ok,
    decreases count,
{
    if count > 0 {
        let face = count - 1;
        lemma_triangles_fail_out_of_range(buffers, lines, found, total, face);
        if add_faces(buffers, lines, found, face) is Ok {
            lemma_faces_faithful(buffers, lines, found, face);
            let start = add_faces(buffers, lines, found, face)->Ok_0;
            let corners = corners_from(found[face])->0;
            assert(corners_from(found[face]) is Some);
            lemma_three_corners(buffers, start, corners);
            assert(corners[0] == corner(found, face, 0));
            assert(corners[1] == corner(found, face, 1));
            assert(corners[2] == corner(found, face, 2));
            lemma_corner_fails_out_of_range(buffers, found, total, face, 0, start);
            if add_corner(buffers, start, corners[0]) is Ok {
                lemma_corner_keeps_faithful(buffers, found, face, 0, start);
                let one = add_corner(buffers, start, corners[0])->Ok_0;
                lemma_corner_fails_out_of_range(buffers, found, total, face, 1, one);
                if add_corner(buffers, one, corners[1]) is Ok {
                    lemma_corner_keeps_faithful(buffers, found, face, 1, one);
                    let two = add_corner(buffers, one, corners[1])->Ok_0;
                    lemma_corner_fails_out_of_range(buffers, found, total, face, 2, two);
                }
            }
        }
    }
}

/// Deduplication, in full. Face lines that are triangles with every index
/// in range, and that write no more distinct composite references than a
/// 32-bit index can address, give a mesh; it has one vertex for each
/// distinct reference, and three indices for each line.
pub proof fn lemma_triangles_give_mesh(
    buffers: BuffersView,
    lines: Seq<Seq<char>>,
    found: Seq<Option<GroupsView>>,
)
    requires
        references(found, found.len() as int).len() <= u32::MAX + 1,
        forall|face: int| 0 <= face < found.len() ==> corners_from(#[trigger] found[face]) is Some,
        forall|face: int, c: int|
            0 <= face < found.len() && 0 <= c < 3 ==> corner_vertex(
                buffers,
                #[trigger] corner(found, face, c),
            ) is Some,
    ensures
        indexed(buffers, lines, found) is Ok,
        references(found, found.len() as int).finite(),
        references(found, found.len() as int).len() == indexed(
            buffers,
            lines,
            found,
        )->Ok_0.vertices.len(),
        indexed(buffers, lines, found)->Ok_0.indices.len() == 3 * found.len(),
{
    lemma_triangles_fail_out_of_range(
        buffers,
        lines,
        found,
        found.len() as int,
        found.len() as int,
    );
    lemma_one_vertex_per_reference(buffers, lines, found);
}

/// Winding for every such source. Face lines that are triangles with every
/// index in range, and that write no more distinct composite references than
/// a 32-bit index can address, give a mesh in which entry `3 * face + c` of
/// the index sequence designates a vertex that holds what corner `c` of
/// face line `face` names.
pub proof fn lemma_triangles_keep_winding(
    buffers: BuffersView,
    lines: Seq<Seq<char>>,
    found: Seq<Option<GroupsView>>,
    face: int,
    c: int,
)
    requires
        0 <= face < found.len(),
        0 <= c < 3,
        references(found, found.len() as int).len() <= u32::MAX + 1,
        forall|line: int| 0 <= line < found.len() ==> corners_from(#[trigger] found[line]) is Some,
        forall|line: int, k: int|
            0 <= line < found.len() && 0 <= k < 3 ==> corner_vertex(
                buffers,
                #[trigger] corner(found, line, k),
            ) is Some,
    ensures
        indexed(buffers, lines, found) is Ok,
        0 <= 3 * face + c < indexed(buffers, lines, found)->Ok_0.indices.len(),
        indexed(buffers, lines, found)->Ok_0.indices[3 * face + c] < indexed(
            buffers,
            lines,
            found,
        )->Ok_0.vertices.len(),
        corner_vertex(buffers, corner(found, face, c)) == Some(
            indexed(buffers, lines, found)->Ok_0.vertices[indexed(
                buffers,
                lines,
                found,
            )->Ok_0.indices[3 * face + c] as int],
        ),
{
    lemma_triangles_give_mesh(buffers, lines, found);
    lemma_vertices_hold_corners(buffers, lines, found, face, c);
}

/// Boundary, first part. A face line with a corner whose position, texture
/// coordinate or normal index is 0 or above the number of vectors loaded
/// leaves no mesh.
pub proof fn lemma_out_of_range_fails(
    buffers: BuffersView,
    lines: Seq<Seq<char>>,
    found: Seq<Option<GroupsView>>,
    face: int,
    c: int,
)
    requires
        0 <= face < found.len(),
        0 <= c < 3,
        corner_vertex(buffers, corner(found, face, c)) is None,
    ensures
        indexed(buffers, lines, found) is Err,
{
    if indexed(buffers, lines, found) is Ok {
        lemma_winding_preserved(buffers, lines, found, face, c);
    }
}

/// Boundary, second part. Where the face lines up to and including `face`
/// are triangles that write no more distinct references than a 32-bit index
/// can address, a corner of `face` with an index that is 0 or above the
/// number of vectors loaded makes the faces fail with `IndexOutOfRange`.
pub proof fn lemma_out_of_range_reported(
    buffers: BuffersView,
    lines: Seq<Seq<char>>,
    found: Seq<Option<GroupsView>>,
    face: int,
    c: int,
)
    requires
        0 <= face < found.len(),
        0 <= c < 3,
        references(found, face + 1).len() <= u32::MAX + 1,
        forall|earlier: int| 0 <= earlier <= face ==> corners_from(#[trigger] found[earlier]) is Some,
        corner_vertex(buffers, corner(found, face, c)) is None,
    ensures
        indexed(buffers, lines, found) == Err::<Indexed, ResultErrorView>(
            ResultErrorView::IndexOutOfRange,
        ),
{
    lemma_triangles_fail_out_of_range(buffers, lines, found, face + 1, face + 1);
    if add_faces(buffers, lines, found, face + 1) is Ok {
        lemma_faces_faithful(buffers, lines, found, face + 1);
    }
    lemma_failure_stays(buffers, lines, found, face + 1, found.len() as int);
}

} // verus!
