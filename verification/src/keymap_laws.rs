//! What holds of the built-in key table row by row.

use vstd::prelude::*;
use crate::command_tree::{
    has_row_below, lemma_has_row_below_left, lemma_has_row_below_right, lemma_rows_bound_concat,
    row_bound, rows_bound, Row,
};
use crate::keymap::{
    default_rows, rows_from_a, rows_from_b_m_m, rows_from_b_s, rows_from_shift_d_b,
    rows_from_g_f_f, rows_from_g_p_n, rows_from_m_shift_a, rows_from_p_shift_p,
    rows_from_shift_p_shift_p, rows_from_shift_s, rows_from_r_m, rows_from_r_b_b_c,
    rows_from_r_s_b_c, rows_from_r_r_b_c, rows_from_v_v, rows_from_shift_v_b,
};
use crate::keys::Key;

verus! {

/// A key sequence that a row of one part of the table lies below has a row
/// of the whole table below it.
proof fn lemma_below_in_table(keys: Seq<Key>)
    requires
        has_row_below(rows_from_a(), keys)
            || has_row_below(rows_from_b_m_m(), keys)
            || has_row_below(rows_from_b_s(), keys)
            || has_row_below(rows_from_shift_d_b(), keys)
            || has_row_below(rows_from_g_f_f(), keys)
            || has_row_below(rows_from_g_p_n(), keys)
            || has_row_below(rows_from_m_shift_a(), keys)
            || has_row_below(rows_from_p_shift_p(), keys)
            || has_row_below(rows_from_shift_p_shift_p(), keys)
            || has_row_below(rows_from_shift_s(), keys)
            || has_row_below(rows_from_r_m(), keys)
            || has_row_below(rows_from_r_b_b_c(), keys)
            || has_row_below(rows_from_r_s_b_c(), keys)
            || has_row_below(rows_from_r_r_b_c(), keys)
            || has_row_below(rows_from_v_v(), keys)
            || has_row_below(rows_from_shift_v_b(), keys),
    ensures
        has_row_below(default_rows(), keys),
{
    let part_0 = rows_from_a();
    let part_1 = part_0 + rows_from_b_m_m();
    if has_row_below(part_0, keys) {
        lemma_has_row_below_left(part_0, rows_from_b_m_m(), keys);
    } else if has_row_below(rows_from_b_m_m(), keys) {
        lemma_has_row_below_right(part_0, rows_from_b_m_m(), keys);
    }
    let part_2 = part_1 + rows_from_b_s();
    if has_row_below(part_1, keys) {
        lemma_has_row_below_left(part_1, rows_from_b_s(), keys);
    } else if has_row_below(rows_from_b_s(), keys) {
        lemma_has_row_below_right(part_1, rows_from_b_s(), keys);
    }
    let part_3 = part_2 + rows_from_shift_d_b();
    if has_row_below(part_2, keys) {
        lemma_has_row_below_left(part_2, rows_from_shift_d_b(), keys);
    } else if has_row_below(rows_from_shift_d_b(), keys) {
        lemma_has_row_below_right(part_2, rows_from_shift_d_b(), keys);
    }
    let part_4 = part_3 + rows_from_g_f_f();
    if has_row_below(part_3, keys) {
        lemma_has_row_below_left(part_3, rows_from_g_f_f(), keys);
    } else if has_row_below(rows_from_g_f_f(), keys) {
        lemma_has_row_below_right(part_3, rows_from_g_f_f(), keys);
    }
    let part_5 = part_4 + rows_from_g_p_n();
    if has_row_below(part_4, keys) {
        lemma_has_row_below_left(part_4, rows_from_g_p_n(), keys);
    } else if has_row_below(rows_from_g_p_n(), keys) {
        lemma_has_row_below_right(part_4, rows_from_g_p_n(), keys);
    }
    let part_6 = part_5 + rows_from_m_shift_a();
    if has_row_below(part_5, keys) {
        lemma_has_row_below_left(part_5, rows_from_m_shift_a(), keys);
    } else if has_row_below(rows_from_m_shift_a(), keys) {
        lemma_has_row_below_right(part_5, rows_from_m_shift_a(), keys);
    }
    let part_7 = part_6 + rows_from_p_shift_p();
    if has_row_below(part_6, keys) {
        lemma_has_row_below_left(part_6, rows_from_p_shift_p(), keys);
    } else if has_row_below(rows_from_p_shift_p(), keys) {
        lemma_has_row_below_right(part_6, rows_from_p_shift_p(), keys);
    }
    let part_8 = part_7 + rows_from_shift_p_shift_p();
    if has_row_below(part_7, keys) {
        lemma_has_row_below_left(part_7, rows_from_shift_p_shift_p(), keys);
    } else if has_row_below(rows_from_shift_p_shift_p(), keys) {
        lemma_has_row_below_right(part_7, rows_from_shift_p_shift_p(), keys);
    }
    let part_9 = part_8 + rows_from_shift_s();
    if has_row_below(part_8, keys) {
        lemma_has_row_below_left(part_8, rows_from_shift_s(), keys);
    } else if has_row_below(rows_from_shift_s(), keys) {
        lemma_has_row_below_right(part_8, rows_from_shift_s(), keys);
    }
    let part_10 = part_9 + rows_from_r_m();
    if has_row_below(part_9, keys) {
        lemma_has_row_below_left(part_9, rows_from_r_m(), keys);
    } else if has_row_below(rows_from_r_m(), keys) {
        lemma_has_row_below_right(part_9, rows_from_r_m(), keys);
    }
    let part_11 = part_10 + rows_from_r_b_b_c();
    if has_row_below(part_10, keys) {
        lemma_has_row_below_left(part_10, rows_from_r_b_b_c(), keys);
    } else if has_row_below(rows_from_r_b_b_c(), keys) {
        lemma_has_row_below_right(part_10, rows_from_r_b_b_c(), keys);
    }
    let part_12 = part_11 + rows_from_r_s_b_c();
    if has_row_below(part_11, keys) {
        lemma_has_row_below_left(part_11, rows_from_r_s_b_c(), keys);
    } else if has_row_below(rows_from_r_s_b_c(), keys) {
        lemma_has_row_below_right(part_11, rows_from_r_s_b_c(), keys);
    }
    let part_13 = part_12 + rows_from_r_r_b_c();
    if has_row_below(part_12, keys) {
        lemma_has_row_below_left(part_12, rows_from_r_r_b_c(), keys);
    } else if has_row_below(rows_from_r_r_b_c(), keys) {
        lemma_has_row_below_right(part_12, rows_from_r_r_b_c(), keys);
    }
    let part_14 = part_13 + rows_from_v_v();
    if has_row_below(part_13, keys) {
        lemma_has_row_below_left(part_13, rows_from_v_v(), keys);
    } else if has_row_below(rows_from_v_v(), keys) {
        lemma_has_row_below_right(part_13, rows_from_v_v(), keys);
    }
    let part_15 = part_14 + rows_from_shift_v_b();
    if has_row_below(part_14, keys) {
        lemma_has_row_below_left(part_14, rows_from_shift_v_b(), keys);
    } else if has_row_below(rows_from_shift_v_b(), keys) {
        lemma_has_row_below_right(part_14, rows_from_shift_v_b(), keys);
    }
}

/// Every row of this part of the table gives its node an action, or a menu
/// that a row of the table lies below.
proof fn lemma_rows_from_a_bound()
    ensures
        rows_bound(rows_from_a(), default_rows()),
{
    let rows = rows_from_a();
    let table = default_rows();
    assert(rows.len() == 12);
    assert(has_row_below(rows_from_a(), rows[0].keys)) by {
        let below = rows_from_a()[1];
        assert(below.keys.len() > 0 && below.keys.drop_last() =~= rows[0].keys);
    }
    lemma_below_in_table(rows[0].keys);
    assert(row_bound(rows[0], table));
    assert(row_bound(rows[1], table));
    assert(row_bound(rows[2], table));
    assert(row_bound(rows[3], table));
    assert(has_row_below(rows_from_a(), rows[4].keys)) by {
        let below = rows_from_a()[5];
        assert(below.keys.len() > 0 && below.keys.drop_last() =~= rows[4].keys);
    }
    lemma_below_in_table(rows[4].keys);
    assert(row_bound(rows[4], table));
    assert(row_bound(rows[5], table));
    assert(has_row_below(rows_from_a(), rows[6].keys)) by {
        let below = rows_from_a()[7];
        assert(below.keys.len() > 0 && below.keys.drop_last() =~= rows[6].keys);
    }
    lemma_below_in_table(rows[6].keys);
    assert(row_bound(rows[6], table));
    assert(row_bound(rows[7], table));
    assert(has_row_below(rows_from_a(), rows[8].keys)) by {
        let below = rows_from_a()[9];
        assert(below.keys.len() > 0 && below.keys.drop_last() =~= rows[8].keys);
    }
    lemma_below_in_table(rows[8].keys);
    assert(row_bound(rows[8], table));
    assert(row_bound(rows[9], table));
    assert(row_bound(rows[10], table));
    assert(has_row_below(rows_from_b_m_m(), rows[11].keys)) by {
        let below = rows_from_b_m_m()[0];
        assert(below.keys.len() > 0 && below.keys.drop_last() =~= rows[11].keys);
    }
    lemma_below_in_table(rows[11].keys);
    assert(row_bound(rows[11], table));
}

/// Every row of this part of the table gives its node an action, or a menu
/// that a row of the table lies below.
proof fn lemma_rows_from_b_m_m_bound()
    ensures
        rows_bound(rows_from_b_m_m(), default_rows()),
{
    let rows = rows_from_b_m_m();
    let table = default_rows();
    assert(rows.len() == 12);
    assert(has_row_below(rows_from_b_m_m(), rows[0].keys)) by {
        let below = rows_from_b_m_m()[1];
        assert(below.keys.len() > 0 && below.keys.drop_last() =~= rows[0].keys);
    }
    lemma_below_in_table(rows[0].keys);
    assert(row_bound(rows[0], table));
    assert(row_bound(rows[1], table));
    assert(has_row_below(rows_from_b_m_m(), rows[2].keys)) by {
        let below = rows_from_b_m_m()[3];
        assert(below.keys.len() > 0 && below.keys.drop_last() =~= rows[2].keys);
    }
    lemma_below_in_table(rows[2].keys);
    assert(row_bound(rows[2], table));
    assert(row_bound(rows[3], table));
    assert(row_bound(rows[4], table));
    assert(row_bound(rows[5], table));
    assert(row_bound(rows[6], table));
    assert(row_bound(rows[7], table));
    assert(row_bound(rows[8], table));
    assert(row_bound(rows[9], table));
    assert(row_bound(rows[10], table));
    assert(row_bound(rows[11], table));
}

/// Every row of this part of the table gives its node an action, or a menu
/// that a row of the table lies below.
proof fn lemma_rows_from_b_s_bound()
    ensures
        rows_bound(rows_from_b_s(), default_rows()),
{
    let rows = rows_from_b_s();
    let table = default_rows();
    assert(rows.len() == 12);
    assert(row_bound(rows[0], table));
    assert(has_row_below(rows_from_b_s(), rows[1].keys)) by {
        let below = rows_from_b_s()[2];
        assert(below.keys.len() > 0 && below.keys.drop_last() =~= rows[1].keys);
    }
    lemma_below_in_table(rows[1].keys);
    assert(row_bound(rows[1], table));
    assert(row_bound(rows[2], table));
    assert(has_row_below(rows_from_b_s(), rows[3].keys)) by {
        let below = rows_from_b_s()[4];
        assert(below.keys.len() > 0 && below.keys.drop_last() =~= rows[3].keys);
    }
    lemma_below_in_table(rows[3].keys);
    assert(row_bound(rows[3], table));
    assert(row_bound(rows[4], table));
    assert(row_bound(rows[5], table));
    assert(has_row_below(rows_from_b_s(), rows[6].keys)) by {
        let below = rows_from_b_s()[7];
        assert(below.keys.len() > 0 && below.keys.drop_last() =~= rows[6].keys);
    }
    lemma_below_in_table(rows[6].keys);
    assert(row_bound(rows[6], table));
    assert(row_bound(rows[7], table));
    assert(has_row_below(rows_from_b_s(), rows[8].keys)) by {
        let below = rows_from_b_s()[9];
        assert(below.keys.len() > 0 && below.keys.drop_last() =~= rows[8].keys);
    }
    lemma_below_in_table(rows[8].keys);
    assert(row_bound(rows[8], table));
    assert(row_bound(rows[9], table));
    assert(has_row_below(rows_from_b_s(), rows[10].keys)) by {
        let below = rows_from_b_s()[11];
        assert(below.keys.len() > 0 && below.keys.drop_last() =~= rows[10].keys);
    }
    lemma_below_in_table(rows[10].keys);
    assert(row_bound(rows[10], table));
    assert(row_bound(rows[11], table));
}

/// Every row of this part of the table gives its node an action, or a menu
/// that a row of the table lies below.
proof fn lemma_rows_from_shift_d_b_bound()
    ensures
        rows_bound(rows_from_shift_d_b(), default_rows()),
{
    let rows = rows_from_shift_d_b();
    let table = default_rows();
    assert(rows.len() == 12);
    assert(has_row_below(rows_from_shift_d_b(), rows[0].keys)) by {
        let below = rows_from_shift_d_b()[1];
        assert(below.keys.len() > 0 && below.keys.drop_last() =~= rows[0].keys);
    }
    lemma_below_in_table(rows[0].keys);
    assert(row_bound(rows[0], table));
    assert(row_bound(rows[1], table));
    assert(has_row_below(rows_from_shift_d_b(), rows[2].keys)) by {
        let below = rows_from_shift_d_b()[3];
        assert(below.keys.len() > 0 && below.keys.drop_last() =~= rows[2].keys);
    }
    lemma_below_in_table(rows[2].keys);
    assert(row_bound(rows[2], table));
    assert(row_bound(rows[3], table));
    assert(has_row_below(rows_from_shift_d_b(), rows[4].keys)) by {
        let below = rows_from_shift_d_b()[5];
        assert(below.keys.len() > 0 && below.keys.drop_last() =~= rows[4].keys);
    }
    lemma_below_in_table(rows[4].keys);
    assert(row_bound(rows[4], table));
    assert(row_bound(rows[5], table));
    assert(row_bound(rows[6], table));
    assert(has_row_below(rows_from_shift_d_b(), rows[7].keys)) by {
        let below = rows_from_shift_d_b()[8];
        assert(below.keys.len() > 0 && below.keys.drop_last() =~= rows[7].keys);
    }
    lemma_below_in_table(rows[7].keys);
    assert(row_bound(rows[7], table));
    assert(row_bound(rows[8], table));
    assert(row_bound(rows[9], table));
    assert(has_row_below(rows_from_shift_d_b(), rows[10].keys)) by {
        let below = rows_from_shift_d_b()[11];
        assert(below.keys.len() > 0 && below.keys.drop_last() =~= rows[10].keys);
    }
    lemma_below_in_table(rows[10].keys);
    assert(row_bound(rows[10], table));
    assert(has_row_below(rows_from_g_f_f(), rows[11].keys)) by {
        let below = rows_from_g_f_f()[0];
        assert(below.keys.len() > 0 && below.keys.drop_last() =~= rows[11].keys);
    }
    lemma_below_in_table(rows[11].keys);
    assert(row_bound(rows[11], table));
}

/// Every row of this part of the table gives its node an action, or a menu
/// that a row of the table lies below.
proof fn lemma_rows_from_g_f_f_bound()
    ensures
        rows_bound(rows_from_g_f_f(), default_rows()),
{
    let rows = rows_from_g_f_f();
    let table = default_rows();
    assert(rows.len() == 12);
    assert(row_bound(rows[0], table));
    assert(row_bound(rows[1], table));
    assert(row_bound(rows[2], table));
    assert(row_bound(rows[3], table));
    assert(row_bound(rows[4], table));
    assert(has_row_below(rows_from_g_f_f(), rows[5].keys)) by {
        let below = rows_from_g_f_f()[6];
        assert(below.keys.len() > 0 && below.keys.drop_last() =~= rows[5].keys);
    }
    lemma_below_in_table(rows[5].keys);
    assert(row_bound(rows[5], table));
    assert(row_bound(rows[6], table));
    assert(row_bound(rows[7], table));
    assert(row_bound(rows[8], table));
    assert(row_bound(rows[9], table));
    assert(row_bound(rows[10], table));
    assert(row_bound(rows[11], table));
}

/// Every row of this part of the table gives its node an action, or a menu
/// that a row of the table lies below.
proof fn lemma_rows_from_g_p_n_bound()
    ensures
        rows_bound(rows_from_g_p_n(), default_rows()),
{
    let rows = rows_from_g_p_n();
    let table = default_rows();
    assert(rows.len() == 12);
    assert(row_bound(rows[0], table));
    assert(row_bound(rows[1], table));
    assert(row_bound(rows[2], table));
    assert(has_row_below(rows_from_g_p_n(), rows[3].keys)) by {
        let below = rows_from_g_p_n()[4];
        assert(below.keys.len() > 0 && below.keys.drop_last() =~= rows[3].keys);
    }
    lemma_below_in_table(rows[3].keys);
    assert(row_bound(rows[3], table));
    assert(row_bound(rows[4], table));
    assert(row_bound(rows[5], table));
    assert(has_row_below(rows_from_g_p_n(), rows[6].keys)) by {
        let below = rows_from_g_p_n()[7];
        assert(below.keys.len() > 0 && below.keys.drop_last() =~= rows[6].keys);
    }
    lemma_below_in_table(rows[6].keys);
    assert(row_bound(rows[6], table));
    assert(row_bound(rows[7], table));
    assert(has_row_below(rows_from_g_p_n(), rows[8].keys)) by {
        let below = rows_from_g_p_n()[9];
        assert(below.keys.len() > 0 && below.keys.drop_last() =~= rows[8].keys);
    }
    lemma_below_in_table(rows[8].keys);
    assert(row_bound(rows[8], table));
    assert(row_bound(rows[9], table));
    assert(row_bound(rows[10], table));
    assert(row_bound(rows[11], table));
}

/// Every row of this part of the table gives its node an action, or a menu
/// that a row of the table lies below.
proof fn lemma_rows_from_m_shift_a_bound()
    ensures
        rows_bound(rows_from_m_shift_a(), default_rows()),
{
    let rows = rows_from_m_shift_a();
    let table = default_rows();
    assert(rows.len() == 12);
    assert(row_bound(rows[0], table));
    assert(row_bound(rows[1], table));
    assert(row_bound(rows[2], table));
    assert(has_row_below(rows_from_m_shift_a(), rows[3].keys)) by {
        let below = rows_from_m_shift_a()[4];
        assert(below.keys.len() > 0 && below.keys.drop_last() =~= rows[3].keys);
    }
    lemma_below_in_table(rows[3].keys);
    assert(row_bound(rows[3], table));
    assert(row_bound(rows[4], table));
    assert(row_bound(rows[5], table));
    assert(row_bound(rows[6], table));
    assert(row_bound(rows[7], table));
    assert(row_bound(rows[8], table));
    assert(has_row_below(rows_from_p_shift_p(), rows[9].keys)) by {
        let below = rows_from_p_shift_p()[3];
        assert(below.keys.len() > 0 && below.keys.drop_last() =~= rows[9].keys);
    }
    lemma_below_in_table(rows[9].keys);
    assert(row_bound(rows[9], table));
    assert(has_row_below(rows_from_m_shift_a(), rows[10].keys)) by {
        let below = rows_from_m_shift_a()[11];
        assert(below.keys.len() > 0 && below.keys.drop_last() =~= rows[10].keys);
    }
    lemma_below_in_table(rows[10].keys);
    assert(row_bound(rows[10], table));
    assert(row_bound(rows[11], table));
}

/// Every row of this part of the table gives its node an action, or a menu
/// that a row of the table lies below.
proof fn lemma_rows_from_p_shift_p_bound()
    ensures
        rows_bound(rows_from_p_shift_p(), default_rows()),
{
    let rows = rows_from_p_shift_p();
    let table = default_rows();
    assert(rows.len() == 12);
    assert(has_row_below(rows_from_p_shift_p(), rows[0].keys)) by {
        let below = rows_from_p_shift_p()[1];
        assert(below.keys.len() > 0 && below.keys.drop_last() =~= rows[0].keys);
    }
    lemma_below_in_table(rows[0].keys);
    assert(row_bound(rows[0], table));
    assert(row_bound(rows[1], table));
    assert(row_bound(rows[2], table));
    assert(row_bound(rows[3], table));
    assert(row_bound(rows[4], table));
    assert(row_bound(rows[5], table));
    assert(row_bound(rows[6], table));
    assert(row_bound(rows[7], table));
    assert(row_bound(rows[8], table));
    assert(row_bound(rows[9], table));
    assert(has_row_below(rows_from_p_shift_p(), rows[10].keys)) by {
        let below = rows_from_p_shift_p()[11];
        assert(below.keys.len() > 0 && below.keys.drop_last() =~= rows[10].keys);
    }
    lemma_below_in_table(rows[10].keys);
    assert(row_bound(rows[10], table));
    assert(row_bound(rows[11], table));
}

/// Every row of this part of the table gives its node an action, or a menu
/// that a row of the table lies below.
proof fn lemma_rows_from_shift_p_shift_p_bound()
    ensures
        rows_bound(rows_from_shift_p_shift_p(), default_rows()),
{
    let rows = rows_from_shift_p_shift_p();
    let table = default_rows();
    assert(rows.len() == 12);
    assert(row_bound(rows[0], table));
    assert(row_bound(rows[1], table));
    assert(row_bound(rows[2], table));
    assert(row_bound(rows[3], table));
    assert(row_bound(rows[4], table));
    assert(row_bound(rows[5], table));
    assert(has_row_below(rows_from_shift_p_shift_p(), rows[6].keys)) by {
        let below = rows_from_shift_p_shift_p()[7];
        assert(below.keys.len() > 0 && below.keys.drop_last() =~= rows[6].keys);
    }
    lemma_below_in_table(rows[6].keys);
    assert(row_bound(rows[6], table));
    assert(row_bound(rows[7], table));
    assert(has_row_below(rows_from_shift_p_shift_p(), rows[8].keys)) by {
        let below = rows_from_shift_p_shift_p()[9];
        assert(below.keys.len() > 0 && below.keys.drop_last() =~= rows[8].keys);
    }
    lemma_below_in_table(rows[8].keys);
    assert(row_bound(rows[8], table));
    assert(row_bound(rows[9], table));
    assert(row_bound(rows[10], table));
    assert(row_bound(rows[11], table));
}

/// Every row of this part of the table gives its node an action, or a menu
/// that a row of the table lies below.
proof fn lemma_rows_from_shift_s_bound()
    ensures
        rows_bound(rows_from_shift_s(), default_rows()),
{
    let rows = rows_from_shift_s();
    let table = default_rows();
    assert(rows.len() == 12);
    assert(has_row_below(rows_from_shift_s(), rows[0].keys)) by {
        let below = rows_from_shift_s()[1];
        assert(below.keys.len() > 0 && below.keys.drop_last() =~= rows[0].keys);
    }
    lemma_below_in_table(rows[0].keys);
    assert(row_bound(rows[0], table));
    assert(row_bound(rows[1], table));
    assert(has_row_below(rows_from_shift_s(), rows[2].keys)) by {
        let below = rows_from_shift_s()[3];
        assert(below.keys.len() > 0 && below.keys.drop_last() =~= rows[2].keys);
    }
    lemma_below_in_table(rows[2].keys);
    assert(row_bound(rows[2], table));
    assert(row_bound(rows[3], table));
    assert(row_bound(rows[4], table));
    assert(has_row_below(rows_from_shift_s(), rows[5].keys)) by {
        let below = rows_from_shift_s()[6];
        assert(below.keys.len() > 0 && below.keys.drop_last() =~= rows[5].keys);
    }
    lemma_below_in_table(rows[5].keys);
    assert(row_bound(rows[5], table));
    assert(row_bound(rows[6], table));
    assert(has_row_below(rows_from_shift_s(), rows[7].keys)) by {
        let below = rows_from_shift_s()[8];
        assert(below.keys.len() > 0 && below.keys.drop_last() =~= rows[7].keys);
    }
    lemma_below_in_table(rows[7].keys);
    assert(row_bound(rows[7], table));
    assert(row_bound(rows[8], table));
    assert(row_bound(rows[9], table));
    assert(has_row_below(rows_from_shift_s(), rows[10].keys)) by {
        let below = rows_from_shift_s()[11];
        assert(below.keys.len() > 0 && below.keys.drop_last() =~= rows[10].keys);
    }
    lemma_below_in_table(rows[10].keys);
    assert(row_bound(rows[10], table));
    assert(has_row_below(rows_from_r_m(), rows[11].keys)) by {
        let below = rows_from_r_m()[4];
        assert(below.keys.len() > 0 && below.keys.drop_last() =~= rows[11].keys);
    }
    lemma_below_in_table(rows[11].keys);
    assert(row_bound(rows[11], table));
}

/// Every row of this part of the table gives its node an action, or a menu
/// that a row of the table lies below.
proof fn lemma_rows_from_r_m_bound()
    ensures
        rows_bound(rows_from_r_m(), default_rows()),
{
    let rows = rows_from_r_m();
    let table = default_rows();
    assert(rows.len() == 12);
    assert(row_bound(rows[0], table));
    assert(row_bound(rows[1], table));
    assert(has_row_below(rows_from_r_b_b_c(), rows[2].keys)) by {
        let below = rows_from_r_b_b_c()[4];
        assert(below.keys.len() > 0 && below.keys.drop_last() =~= rows[2].keys);
    }
    lemma_below_in_table(rows[2].keys);
    assert(row_bound(rows[2], table));
    assert(has_row_below(rows_from_r_s_b_c(), rows[3].keys)) by {
        let below = rows_from_r_s_b_c()[4];
        assert(below.keys.len() > 0 && below.keys.drop_last() =~= rows[3].keys);
    }
    lemma_below_in_table(rows[3].keys);
    assert(row_bound(rows[3], table));
    assert(has_row_below(rows_from_r_m(), rows[4].keys)) by {
        let below = rows_from_r_m()[7];
        assert(below.keys.len() > 0 && below.keys.drop_last() =~= rows[4].keys);
    }
    lemma_below_in_table(rows[4].keys);
    assert(row_bound(rows[4], table));
    assert(has_row_below(rows_from_r_m(), rows[5].keys)) by {
        let below = rows_from_r_m()[10];
        assert(below.keys.len() > 0 && below.keys.drop_last() =~= rows[5].keys);
    }
    lemma_below_in_table(rows[5].keys);
    assert(row_bound(rows[5], table));
    assert(has_row_below(rows_from_r_b_b_c(), rows[6].keys)) by {
        let below = rows_from_r_b_b_c()[1];
        assert(below.keys.len() > 0 && below.keys.drop_last() =~= rows[6].keys);
    }
    lemma_below_in_table(rows[6].keys);
    assert(row_bound(rows[6], table));
    assert(row_bound(rows[7], table));
    assert(row_bound(rows[8], table));
    assert(row_bound(rows[9], table));
    assert(row_bound(rows[10], table));
    assert(row_bound(rows[11], table));
}

/// Every row of this part of the table gives its node an action, or a menu
/// that a row of the table lies below.
proof fn lemma_rows_from_r_b_b_c_bound()
    ensures
        rows_bound(rows_from_r_b_b_c(), default_rows()),
{
    let rows = rows_from_r_b_b_c();
    let table = default_rows();
    assert(rows.len() == 12);
    assert(row_bound(rows[0], table));
    assert(row_bound(rows[1], table));
    assert(row_bound(rows[2], table));
    assert(row_bound(rows[3], table));
    assert(has_row_below(rows_from_r_b_b_c(), rows[4].keys)) by {
        let below = rows_from_r_b_b_c()[7];
        assert(below.keys.len() > 0 && below.keys.drop_last() =~= rows[4].keys);
    }
    lemma_below_in_table(rows[4].keys);
    assert(row_bound(rows[4], table));
    assert(has_row_below(rows_from_r_b_b_c(), rows[5].keys)) by {
        let below = rows_from_r_b_b_c()[10];
        assert(below.keys.len() > 0 && below.keys.drop_last() =~= rows[5].keys);
    }
    lemma_below_in_table(rows[5].keys);
    assert(row_bound(rows[5], table));
    assert(has_row_below(rows_from_r_s_b_c(), rows[6].keys)) by {
        let below = rows_from_r_s_b_c()[1];
        assert(below.keys.len() > 0 && below.keys.drop_last() =~= rows[6].keys);
    }
    lemma_below_in_table(rows[6].keys);
    assert(row_bound(rows[6], table));
    assert(row_bound(rows[7], table));
    assert(row_bound(rows[8], table));
    assert(row_bound(rows[9], table));
    assert(row_bound(rows[10], table));
    assert(row_bound(rows[11], table));
}

/// Every row of this part of the table gives its node an action, or a menu
/// that a row of the table lies below.
proof fn lemma_rows_from_r_s_b_c_bound()
    ensures
        rows_bound(rows_from_r_s_b_c(), default_rows()),
{
    let rows = rows_from_r_s_b_c();
    let table = default_rows();
    assert(rows.len() == 12);
    assert(row_bound(rows[0], table));
    assert(row_bound(rows[1], table));
    assert(row_bound(rows[2], table));
    assert(row_bound(rows[3], table));
    assert(has_row_below(rows_from_r_s_b_c(), rows[4].keys)) by {
        let below = rows_from_r_s_b_c()[7];
        assert(below.keys.len() > 0 && below.keys.drop_last() =~= rows[4].keys);
    }
    lemma_below_in_table(rows[4].keys);
    assert(row_bound(rows[4], table));
    assert(has_row_below(rows_from_r_s_b_c(), rows[5].keys)) by {
        let below = rows_from_r_s_b_c()[10];
        assert(below.keys.len() > 0 && below.keys.drop_last() =~= rows[5].keys);
    }
    lemma_below_in_table(rows[5].keys);
    assert(row_bound(rows[5], table));
    assert(has_row_below(rows_from_r_r_b_c(), rows[6].keys)) by {
        let below = rows_from_r_r_b_c()[1];
        assert(below.keys.len() > 0 && below.keys.drop_last() =~= rows[6].keys);
    }
    lemma_below_in_table(rows[6].keys);
    assert(row_bound(rows[6], table));
    assert(row_bound(rows[7], table));
    assert(row_bound(rows[8], table));
    assert(row_bound(rows[9], table));
    assert(row_bound(rows[10], table));
    assert(row_bound(rows[11], table));
}

/// Every row of this part of the table gives its node an action, or a menu
/// that a row of the table lies below.
proof fn lemma_rows_from_r_r_b_c_bound()
    ensures
        rows_bound(rows_from_r_r_b_c(), default_rows()),
{
    let rows = rows_from_r_r_b_c();
    let table = default_rows();
    assert(rows.len() == 12);
    assert(row_bound(rows[0], table));
    assert(row_bound(rows[1], table));
    assert(row_bound(rows[2], table));
    assert(row_bound(rows[3], table));
    assert(has_row_below(rows_from_r_r_b_c(), rows[4].keys)) by {
        let below = rows_from_r_r_b_c()[5];
        assert(below.keys.len() > 0 && below.keys.drop_last() =~= rows[4].keys);
    }
    lemma_below_in_table(rows[4].keys);
    assert(row_bound(rows[4], table));
    assert(row_bound(rows[5], table));
    assert(row_bound(rows[6], table));
    assert(row_bound(rows[7], table));
    assert(row_bound(rows[8], table));
    assert(has_row_below(rows_from_r_r_b_c(), rows[9].keys)) by {
        let below = rows_from_r_r_b_c()[10];
        assert(below.keys.len() > 0 && below.keys.drop_last() =~= rows[9].keys);
    }
    lemma_below_in_table(rows[9].keys);
    assert(row_bound(rows[9], table));
    assert(row_bound(rows[10], table));
    assert(has_row_below(rows_from_v_v(), rows[11].keys)) by {
        let below = rows_from_v_v()[0];
        assert(below.keys.len() > 0 && below.keys.drop_last() =~= rows[11].keys);
    }
    lemma_below_in_table(rows[11].keys);
    assert(row_bound(rows[11], table));
}

/// Every row of this part of the table gives its node an action, or a menu
/// that a row of the table lies below.
proof fn lemma_rows_from_v_v_bound()
    ensures
        rows_bound(rows_from_v_v(), default_rows()),
{
    let rows = rows_from_v_v();
    let table = default_rows();
    assert(rows.len() == 12);
    assert(row_bound(rows[0], table));
    assert(row_bound(rows[1], table));
    assert(row_bound(rows[2], table));
    assert(row_bound(rows[3], table));
    assert(has_row_below(rows_from_v_v(), rows[4].keys)) by {
        let below = rows_from_v_v()[5];
        assert(below.keys.len() > 0 && below.keys.drop_last() =~= rows[4].keys);
    }
    lemma_below_in_table(rows[4].keys);
    assert(row_bound(rows[4], table));
    assert(row_bound(rows[5], table));
    assert(has_row_below(rows_from_v_v(), rows[6].keys)) by {
        let below = rows_from_v_v()[7];
        assert(below.keys.len() > 0 && below.keys.drop_last() =~= rows[6].keys);
    }
    lemma_below_in_table(rows[6].keys);
    assert(row_bound(rows[6], table));
    assert(row_bound(rows[7], table));
    assert(has_row_below(rows_from_v_v(), rows[8].keys)) by {
        let below = rows_from_v_v()[9];
        assert(below.keys.len() > 0 && below.keys.drop_last() =~= rows[8].keys);
    }
    lemma_below_in_table(rows[8].keys);
    assert(row_bound(rows[8], table));
    assert(row_bound(rows[9], table));
    assert(has_row_below(rows_from_v_v(), rows[10].keys)) by {
        let below = rows_from_v_v()[11];
        assert(below.keys.len() > 0 && below.keys.drop_last() =~= rows[10].keys);
    }
    lemma_below_in_table(rows[10].keys);
    assert(row_bound(rows[10], table));
    assert(row_bound(rows[11], table));
}

/// Every row of this part of the table gives its node an action, or a menu
/// that a row of the table lies below.
proof fn lemma_rows_from_shift_v_b_bound()
    ensures
        rows_bound(rows_from_shift_v_b(), default_rows()),
{
    let rows = rows_from_shift_v_b();
    let table = default_rows();
    assert(rows.len() == 5);
    assert(has_row_below(rows_from_shift_v_b(), rows[0].keys)) by {
        let below = rows_from_shift_v_b()[1];
        assert(below.keys.len() > 0 && below.keys.drop_last() =~= rows[0].keys);
    }
    lemma_below_in_table(rows[0].keys);
    assert(row_bound(rows[0], table));
    assert(row_bound(rows[1], table));
    assert(has_row_below(rows_from_shift_v_b(), rows[2].keys)) by {
        let below = rows_from_shift_v_b()[3];
        assert(below.keys.len() > 0 && below.keys.drop_last() =~= rows[2].keys);
    }
    lemma_below_in_table(rows[2].keys);
    assert(row_bound(rows[2], table));
    assert(row_bound(rows[3], table));
    assert(row_bound(rows[4], table));
}

/// In the built-in key table every row gives its node an action, or a menu
/// that a row of the table lies below; and rows lie below the root menu.
pub proof fn lemma_default_rows_bound()
    ensures
        rows_bound(default_rows(), default_rows()),
        has_row_below(default_rows(), Seq::empty()),
{
    let table = default_rows();
    lemma_rows_from_a_bound();
    lemma_rows_from_b_m_m_bound();
    lemma_rows_from_b_s_bound();
    lemma_rows_from_shift_d_b_bound();
    lemma_rows_from_g_f_f_bound();
    lemma_rows_from_g_p_n_bound();
    lemma_rows_from_m_shift_a_bound();
    lemma_rows_from_p_shift_p_bound();
    lemma_rows_from_shift_p_shift_p_bound();
    lemma_rows_from_shift_s_bound();
    lemma_rows_from_r_m_bound();
    lemma_rows_from_r_b_b_c_bound();
    lemma_rows_from_r_s_b_c_bound();
    lemma_rows_from_r_r_b_c_bound();
    lemma_rows_from_v_v_bound();
    lemma_rows_from_shift_v_b_bound();
    let part_0 = rows_from_a();
    let part_1 = part_0 + rows_from_b_m_m();
    lemma_rows_bound_concat(part_0, rows_from_b_m_m(), table);
    let part_2 = part_1 + rows_from_b_s();
    lemma_rows_bound_concat(part_1, rows_from_b_s(), table);
    let part_3 = part_2 + rows_from_shift_d_b();
    lemma_rows_bound_concat(part_2, rows_from_shift_d_b(), table);
    let part_4 = part_3 + rows_from_g_f_f();
    lemma_rows_bound_concat(part_3, rows_from_g_f_f(), table);
    let part_5 = part_4 + rows_from_g_p_n();
    lemma_rows_bound_concat(part_4, rows_from_g_p_n(), table);
    let part_6 = part_5 + rows_from_m_shift_a();
    lemma_rows_bound_concat(part_5, rows_from_m_shift_a(), table);
    let part_7 = part_6 + rows_from_p_shift_p();
    lemma_rows_bound_concat(part_6, rows_from_p_shift_p(), table);
    let part_8 = part_7 + rows_from_shift_p_shift_p();
    lemma_rows_bound_concat(part_7, rows_from_shift_p_shift_p(), table);
    let part_9 = part_8 + rows_from_shift_s();
    lemma_rows_bound_concat(part_8, rows_from_shift_s(), table);
    let part_10 = part_9 + rows_from_r_m();
    lemma_rows_bound_concat(part_9, rows_from_r_m(), table);
    let part_11 = part_10 + rows_from_r_b_b_c();
    lemma_rows_bound_concat(part_10, rows_from_r_b_b_c(), table);
    let part_12 = part_11 + rows_from_r_s_b_c();
    lemma_rows_bound_concat(part_11, rows_from_r_s_b_c(), table);
    let part_13 = part_12 + rows_from_r_r_b_c();
    lemma_rows_bound_concat(part_12, rows_from_r_r_b_c(), table);
    let part_14 = part_13 + rows_from_v_v();
    lemma_rows_bound_concat(part_13, rows_from_v_v(), table);
    let part_15 = part_14 + rows_from_shift_v_b();
    lemma_rows_bound_concat(part_14, rows_from_shift_v_b(), table);
    assert(has_row_below(rows_from_a(), Seq::empty())) by {
        let below = rows_from_a()[0];
        assert(below.keys.len() > 0 && below.keys.drop_last() =~= Seq::<Key>::empty());
    }
    lemma_below_in_table(Seq::empty());
}

} // verus!
