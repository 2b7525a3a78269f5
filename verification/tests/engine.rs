use autodiff::chain::{ChainedFunc, Op};
use autodiff::func::{Exp, Function, Square};
use autodiff::grid::Grid;
use autodiff::scalar::Scalar;
use autodiff::variable::Variable;

fn grid(rows: usize, cols: usize, v: Vec<i64>) -> Grid<i64> {
    assert_eq!(v.len(), rows * cols);
    Grid::new(rows, cols, v)
}

#[test]
fn test_step_1_int() {
    let expected = grid(2, 2, vec![1, 2, 3, 4]);

    let var = Variable::new(grid(2, 2, vec![1, 2, 3, 4]));
    assert_eq!(var.data, expected);
}

#[test]
fn test_step_2_int() {
    let expected = grid(2, 2, vec![1, 4, 9, 16]);

    let var = Variable::new(grid(2, 2, vec![1, 2, 3, 4]));
    let mut square = Square::new();
    let actual = square.forward(&var.data);
    assert_eq!(actual, expected);
}

#[test]
fn test_step_3_int() {
    let expected = grid(2, 2, vec![1, 4, 9, 16]);

    let var = Variable::new(grid(2, 2, vec![1, 2, 3, 4]));
    let mut square = Square::new();
    let actual = square.forward(&var.data);
    assert_eq!(actual, expected);
}

#[test]
fn test_step6_square_forward() {
    let expected = grid(2, 3, vec![4, 1, 0, 0, 1, 4]);

    let var = Variable::new(grid(2, 3, vec![-2, -1, 0, 0, 1, 2]));
    let mut square = Square::new();
    let actual = square.forward(&var.data);

    assert_eq!(actual, expected);
}

#[test]
fn test_step6_square_backward() {
    let expected = grid(2, 3, vec![-4, -2, 0, 0, 2, 4]);

    let var = Variable::new(grid(2, 3, vec![-2, -1, 0, 0, 1, 2]));
    let mut square = Square::new();
    let _ = square.forward(&var.data);
    let dy = grid(2, 3, vec![1, 1, 1, 1, 1, 1]);
    let dx = square.backward(&dy);

    assert_eq!(dx, expected);
}

#[test]
fn exp_forward_base_two() {
    let expected = grid(2, 2, vec![0, 1, 8, i64::MAX]);

    let mut exp = Exp::new();
    let actual = exp.forward(&grid(2, 2, vec![-1, 0, 3, 63]));

    assert_eq!(actual, expected);
}

#[test]
fn exp_backward_ones() {
    let expected = grid(2, 2, vec![1, 2, 4, 8]);

    let mut exp = Exp::new();
    let _ = exp.forward(&grid(2, 2, vec![0, 1, 2, 3]));
    let dy = grid(2, 2, vec![1, 1, 1, 1]);
    let dx = exp.backward(&dy);

    assert_eq!(dx, expected);
}

#[test]
fn exp_backward_scales_upstream_gradient() {
    let expected = grid(1, 2, vec![10, 12]);

    let mut exp = Exp::new();
    let _ = exp.forward(&grid(1, 2, vec![0, 2]));
    let dy = grid(1, 2, vec![10, 3]);
    let dx = exp.backward(&dy);

    assert_eq!(dx, expected);
}

#[test]
fn forward_cache_keeps_only_latest_input() {
    let mut square = Square::new();
    let _ = square.forward(&grid(1, 2, vec![1, 1]));
    let _ = square.forward(&grid(1, 2, vec![3, 4]));

    let dy = grid(1, 2, vec![1, 1]);
    let dx = square.backward(&dy);

    assert_eq!(dx, grid(1, 2, vec![6, 8]));
}

#[test]
fn chain_applies_in_insertion_order() {
    let x = grid(1, 1, vec![3]);

    let mut chain = ChainedFunc::new();
    chain.add(Op::Square(Square::new()));
    chain.add(Op::Exp(Exp::new()));
    let chained = chain.forward(&x);

    let mut square = Square::new();
    let mut exp = Exp::new();
    let manual = exp.forward(&square.forward(&x));

    assert_eq!(chained, manual);
    assert_eq!(chained, grid(1, 1, vec![512]));
}

#[test]
fn chain_order_changes_result() {
    let x = grid(1, 1, vec![3]);

    let mut square_then_exp = ChainedFunc::new();
    square_then_exp.add(Op::Square(Square::new()));
    square_then_exp.add(Op::Exp(Exp::new()));
    let a = square_then_exp.forward(&x);

    let mut exp_then_square = ChainedFunc::new();
    exp_then_square.add(Op::Exp(Exp::new()));
    exp_then_square.add(Op::Square(Square::new()));
    let b = exp_then_square.forward(&x);

    assert_eq!(a, grid(1, 1, vec![512]));
    assert_eq!(b, grid(1, 1, vec![64]));
    assert_ne!(a, b);
}

#[test]
fn empty_chain_returns_input() {
    let x = grid(2, 2, vec![5, -3, 0, 7]);
    let mut chain: ChainedFunc<i64> = ChainedFunc::new();
    let y = chain.forward(&x);
    assert_eq!(y, x);
}

#[test]
fn numerical_diff_square_is_exact_double() {
    // With the integer step of two, the central difference of the square map
    // is ((x + 2)^2 - (x - 2)^2) / 4 = 2x, exactly.
    let expected = grid(2, 2, vec![-4, 0, 2, 6]);

    let mut chain = ChainedFunc::new();
    chain.add(Op::Square(Square::new()));
    let actual = chain.numerical_diff(&grid(2, 2, vec![-2, 0, 1, 3]));

    assert_eq!(actual, expected);
}

#[test]
fn numerical_diff_two_squares() {
    // For two chained squares the central difference with step two is
    // ((x + 2)^4 - (x - 2)^4) / 4 = 4x^3 + 16x, exactly.
    let expected = grid(2, 2, vec![0, 20, 64, -20]);

    let mut chain = ChainedFunc::new();
    chain.add(Op::Square(Square::new()));
    chain.add(Op::Square(Square::new()));
    let actual = chain.numerical_diff(&grid(2, 2, vec![0, 1, 2, -1]));

    assert_eq!(actual, expected);
}

#[test]
fn variable_zeroes_gradient_of_same_shape() {
    let var = Variable::new(grid(2, 3, vec![4, 5, 6, 7, 8, 9]));
    assert_eq!(var.grad, grid(2, 3, vec![0, 0, 0, 0, 0, 0]));
}

#[test]
fn variable_on_empty_grid() {
    let var = Variable::new(grid(0, 0, vec![]));
    assert_eq!(var.data.len(), 0);
    assert_eq!(var.grad.len(), 0);
}

#[test]
fn grid_accessors() {
    let g = grid(2, 3, vec![10, 11, 12, 20, 21, 22]);
    assert_eq!(g.rows(), 2);
    assert_eq!(g.cols(), 3);
    assert_eq!(g.len(), 6);
    assert_eq!(g.at(4), 21);
    assert_eq!(g.get(0, 0), 10);
    assert_eq!(g.get(1, 2), 22);
    assert_eq!(g.duplicate(), g);
}

#[test]
fn square_saturates_at_extremes() {
    let expected = grid(1, 2, vec![i64::MAX, i64::MAX]);

    let mut square = Square::new();
    let actual = square.forward(&grid(1, 2, vec![i64::MAX, i64::MIN]));

    assert_eq!(actual, expected);
}

#[test]
fn scalar_division_truncates_toward_zero() {
    assert_eq!(<i64 as Scalar>::div(-7, 2), -3);
    assert_eq!(<i64 as Scalar>::div(7, -2), -3);
    assert_eq!(<i64 as Scalar>::div(-7, -2), 3);
    assert_eq!(<i64 as Scalar>::div(7, 2), 3);
}

#[test]
fn scalar_division_by_zero_is_zero() {
    assert_eq!(<i64 as Scalar>::div(5, 0), 0);
    assert_eq!(<i64 as Scalar>::div(i64::MIN, 0), 0);
}

#[test]
fn scalar_division_saturates_on_overflow() {
    assert_eq!(<i64 as Scalar>::div(i64::MIN, -1), i64::MAX);
}

#[test]
fn scalar_arithmetic_saturates() {
    assert_eq!(<i64 as Scalar>::add(i64::MAX, 1), i64::MAX);
    assert_eq!(<i64 as Scalar>::sub(i64::MIN, 1), i64::MIN);
    assert_eq!(<i64 as Scalar>::mul(i64::MAX, 2), i64::MAX);
    assert_eq!(<i64 as Scalar>::mul(i64::MIN, 2), i64::MIN);
}

#[test]
fn scalar_constants() {
    assert_eq!(<i64 as Scalar>::zero(), 0);
    assert_eq!(<i64 as Scalar>::one(), 1);
    assert_eq!(<i64 as Scalar>::two(), 2);
    assert_eq!(<i64 as Scalar>::delta(), 2);
}

#[test]
fn scalar_exponential_values() {
    assert_eq!(<i64 as Scalar>::exp(-5), 0);
    assert_eq!(<i64 as Scalar>::exp(0), 1);
    assert_eq!(<i64 as Scalar>::exp(10), 1024);
    assert_eq!(<i64 as Scalar>::exp(62), 1 << 62);
    assert_eq!(<i64 as Scalar>::exp(63), i64::MAX);
    assert_eq!(<i64 as Scalar>::exp(100), i64::MAX);
}
