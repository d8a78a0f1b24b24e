use argmin::cost::Cost;
use argmin::iterstate::IterState;
use argmin::problem::Problem;

fn has_count(counts: &Vec<(String, u64)>, name: &str) -> bool {
    counts.iter().any(|(k, _)| k == name)
}

#[test]
#[allow(clippy::type_complexity)]
fn test_iterstate() {
    let param = vec![1.0f64, 2.0];
    let cost = Cost::Finite(42);

    let mut state: IterState<Vec<f64>, Vec<f64>, Vec<f64>, Vec<Vec<f64>>> = IterState::new();

    assert!(state.get_param().is_none());
    assert!(state.get_prev_param().is_none());
    assert!(state.get_best_param().is_none());
    assert!(state.get_prev_best_param().is_none());

    state = state.param(param.clone());

    assert_eq!(*state.get_param().unwrap(), param);
    assert!(state.get_prev_param().is_none());
    assert!(state.get_best_param().is_none());
    assert!(state.get_prev_best_param().is_none());

    assert!(state.get_cost().is_infinite());
    assert!(state.get_cost().is_sign_positive());

    assert!(state.get_prev_cost().is_infinite());
    assert!(state.get_prev_cost().is_sign_positive());

    assert!(state.get_best_cost().is_infinite());
    assert!(state.get_best_cost().is_sign_positive());

    assert!(state.get_prev_best_cost().is_infinite());
    assert!(state.get_prev_best_cost().is_sign_positive());

    assert!(state.get_target_cost().is_infinite());
    assert!(!state.get_target_cost().is_sign_positive());

    assert!(state.get_grad().is_none());
    assert!(state.get_prev_grad().is_none());
    assert!(state.get_hessian().is_none());
    assert!(state.get_prev_hessian().is_none());
    assert!(state.get_inv_hessian().is_none());
    assert!(state.get_prev_inv_hessian().is_none());
    assert!(state.get_jacobian().is_none());
    assert!(state.get_prev_jacobian().is_none());
    assert_eq!(state.get_iter(), 0);

    assert!(state.is_best());

    assert_eq!(state.get_max_iters(), std::u64::MAX);
    let func_counts = state.get_func_counts().clone();
    assert!(!has_count(&func_counts, "cost_count"));
    assert!(!has_count(&func_counts, "operator_count"));
    assert!(!has_count(&func_counts, "gradient_count"));
    assert!(!has_count(&func_counts, "hessian_count"));
    assert!(!has_count(&func_counts, "jacobian_count"));
    assert!(!has_count(&func_counts, "modify_count"));

    state = state.max_iters(42);

    assert_eq!(state.get_max_iters(), 42);

    let mut state = state.cost(cost);

    assert_eq!(state.get_cost(), cost);
    assert!(state.get_prev_cost().is_infinite());
    assert!(state.get_prev_cost().is_sign_positive());

    state.best_cost(cost);

    assert_eq!(state.get_best_cost(), cost);
    assert!(state.get_prev_best_cost().is_infinite());
    assert!(state.get_prev_best_cost().is_sign_positive());

    let new_param = vec![2.0, 1.0];

    state = state.param(new_param.clone());

    assert_eq!(*state.get_param().unwrap(), new_param);
    assert_eq!(*state.get_prev_param().unwrap(), param);

    state.best_param(new_param.clone());

    assert_eq!(*state.get_best_param().unwrap(), new_param);
    assert!(state.get_prev_best_param().is_none());

    let new_cost = Cost::Finite(21);

    let mut state = state.cost(new_cost);

    assert_eq!(state.get_cost(), new_cost);
    assert_eq!(state.get_prev_cost(), cost);

    state.best_cost(new_cost);

    assert_eq!(state.get_best_cost(), new_cost);
    assert_eq!(state.get_prev_best_cost(), cost);

    state.increment_iter();

    assert_eq!(state.get_iter(), 1);

    assert!(!state.is_best());

    state.new_best();

    assert!(state.is_best());

    let grad = vec![1.0, 2.0];

    let state = state.grad(grad.clone());
    assert_eq!(*state.get_grad().unwrap(), grad);
    assert!(state.get_prev_grad().is_none());

    let new_grad = vec![2.0, 1.0];

    let state = state.grad(new_grad.clone());

    assert_eq!(*state.get_grad().unwrap(), new_grad);
    assert_eq!(*state.get_prev_grad().unwrap(), grad);

    let hessian = vec![vec![1.0, 2.0], vec![2.0, 1.0]];

    let state = state.hessian(hessian.clone());
    assert_eq!(*state.get_hessian().unwrap(), hessian);
    assert!(state.get_prev_hessian().is_none());

    let new_hessian = vec![vec![2.0, 1.0], vec![1.0, 2.0]];

    let state = state.hessian(new_hessian.clone());

    assert_eq!(*state.get_hessian().unwrap(), new_hessian);
    assert_eq!(*state.get_prev_hessian().unwrap(), hessian);

    let inv_hessian = vec![vec![2.0, 1.0], vec![1.0, 2.0]];

    let state = state.inv_hessian(inv_hessian.clone());
    assert_eq!(*state.get_inv_hessian().unwrap(), inv_hessian);
    assert!(state.get_prev_inv_hessian().is_none());

    let new_inv_hessian = vec![vec![3.0, 4.0], vec![4.0, 3.0]];

    let state = state.inv_hessian(new_inv_hessian.clone());

    assert_eq!(*state.get_inv_hessian().unwrap(), new_inv_hessian);
    assert_eq!(*state.get_prev_inv_hessian().unwrap(), inv_hessian);

    let jacobian = vec![1.0f64, 2.0];

    let state = state.jacobian(jacobian.clone());
    assert!(state.get_prev_jacobian().is_none());

    let new_jacobian = vec![2.0f64, 1.0];

    let mut state = state.jacobian(new_jacobian.clone());

    assert_eq!(*state.get_jacobian().unwrap(), new_jacobian);
    assert_eq!(*state.get_prev_jacobian().unwrap(), jacobian);

    state.increment_iter();

    assert_eq!(state.get_iter(), 2);
    assert_eq!(state.get_last_best_iter(), 1);
    assert!(!state.is_best());

    // check again!
    assert_eq!(state.get_iter(), 2);
    assert_eq!(state.get_last_best_iter(), 1);
    assert_eq!(state.get_max_iters(), 42);

    assert!(!state.is_best());

    assert_eq!(state.get_cost(), new_cost);
    assert_eq!(state.get_prev_cost(), cost);
    assert_eq!(state.get_prev_cost(), cost);

    assert_eq!(*state.get_param().unwrap(), new_param);
    assert_eq!(*state.get_prev_param().unwrap(), param);

    assert_eq!(state.get_best_cost(), new_cost);
    assert_eq!(state.get_prev_best_cost(), cost);

    assert_eq!(*state.get_best_param().unwrap(), new_param);
    assert!(state.get_prev_best_param().is_none());

    assert_eq!(state.get_best_cost(), new_cost);
    assert_eq!(state.get_prev_best_cost(), cost);

    assert_eq!(*state.get_grad().unwrap(), new_grad);
    assert_eq!(*state.get_prev_grad().unwrap(), grad);
    assert_eq!(*state.get_hessian().unwrap(), new_hessian);
    assert_eq!(*state.get_prev_hessian().unwrap(), hessian);
    assert_eq!(*state.get_inv_hessian().unwrap(), new_inv_hessian);
    assert_eq!(*state.get_prev_inv_hessian().unwrap(), inv_hessian);
    assert_eq!(*state.get_jacobian().unwrap(), new_jacobian);
    assert_eq!(*state.get_prev_jacobian().unwrap(), jacobian);
    assert_eq!(state.take_grad().unwrap(), new_grad);
    assert_eq!(state.take_prev_grad().unwrap(), grad);
    assert_eq!(state.take_hessian().unwrap(), new_hessian);
    assert_eq!(state.take_prev_hessian().unwrap(), hessian);
    assert_eq!(state.take_inv_hessian().unwrap(), new_inv_hessian);
    assert_eq!(state.take_prev_inv_hessian().unwrap(), inv_hessian);
    assert_eq!(state.take_jacobian().unwrap(), new_jacobian);
    assert_eq!(state.take_prev_jacobian().unwrap(), jacobian);
    let func_counts = state.get_func_counts().clone();
    assert!(!has_count(&func_counts, "cost_count"));
    assert!(!has_count(&func_counts, "operator_count"));
    assert!(!has_count(&func_counts, "gradient_count"));
    assert!(!has_count(&func_counts, "hessian_count"));
    assert!(!has_count(&func_counts, "jacobian_count"));
    assert!(!has_count(&func_counts, "modify_count"));

    let old_best = vec![1.0, 2.0];
    let old_cost = Cost::Finite(10);
    state.best_param(old_best);
    state.best_cost(old_cost);
    let new_param = vec![3.0, 4.0];
    let new_cost = Cost::Finite(5);
    state = state.param(new_param);
    let _state = state.cost(new_cost);
}

type State = IterState<Vec<i64>, (), (), ()>;

#[test]
fn param_shift_keeps_previous() {
    let state: State = IterState::new();
    let state = state.param(vec![1]).param(vec![2]);
    assert_eq!(state.get_prev_param(), Some(&vec![1]));
    assert_eq!(state.get_param(), Some(&vec![2]));
    let state = state.param(vec![3]);
    assert_eq!(state.get_prev_param(), Some(&vec![2]));
    assert_eq!(state.get_param(), Some(&vec![3]));
}

#[test]
fn update_twice_changes_nothing_more() {
    let state: State = IterState::new();
    let mut state = state.param(vec![7]).cost(Cost::Finite(4));
    state.increment_iter();
    state.update();
    let best_cost = state.get_best_cost();
    let best_param = state.get_best_param().cloned();
    let last = state.get_last_best_iter();
    state.update();
    assert_eq!(state.get_best_cost(), best_cost);
    assert_eq!(state.get_best_param().cloned(), best_param);
    assert_eq!(state.get_last_best_iter(), last);
    assert_eq!(state.get_best_cost(), Cost::Finite(4));
    assert_eq!(last, 1);
}

#[test]
fn best_tracking_over_cost_sequence() {
    let costs = [
        Cost::PosInfinity,
        Cost::PosInfinity,
        Cost::Finite(5),
        Cost::Finite(5),
        Cost::Finite(3),
        Cost::Finite(4),
    ];
    let mut state: State = IterState::new();
    let mut seen = Vec::new();
    for (i, c) in costs.iter().enumerate() {
        state = state.param(vec![i as i64]).cost(*c);
        state.increment_iter();
        state.update();
        seen.push(state.is_best());
    }
    // equal infinities count as progress each time; an equal finite cost does not
    assert_eq!(seen, vec![true, true, true, false, true, false]);
    assert_eq!(state.get_best_cost(), Cost::Finite(3));
    assert_eq!(state.get_best_param(), Some(&vec![4]));
    assert_eq!(state.get_prev_best_cost(), Cost::Finite(5));
    assert_eq!(state.get_last_best_iter(), 5);
}

#[test]
fn infinite_costs_compare_by_sign() {
    assert!(Cost::PosInfinity.improves_on(&Cost::PosInfinity));
    assert!(Cost::NegInfinity.improves_on(&Cost::NegInfinity));
    assert!(!Cost::PosInfinity.improves_on(&Cost::NegInfinity));
    assert!(Cost::NegInfinity.improves_on(&Cost::PosInfinity));

    let state: State = IterState::new();
    let mut state = state.param(vec![1]);
    state.best_cost(Cost::NegInfinity);
    state.increment_iter();
    state.update();
    assert!(!state.is_best());
    assert_eq!(state.get_best_cost(), Cost::NegInfinity);
    assert!(state.get_best_param().is_none());
}

#[test]
fn update_without_param_tracks_cost_only() {
    let state: State = IterState::new();
    let mut state = state.cost(Cost::Finite(2));
    state.update();
    assert_eq!(state.get_best_cost(), Cost::Finite(2));
    assert_eq!(state.get_prev_best_cost(), Cost::PosInfinity);
    assert!(state.get_best_param().is_none());
    assert!(state.is_best());
}

#[test]
fn func_counts_overwrite_and_keep() {
    let mut state: State = IterState::new();
    let mut problem = Problem::new(());
    problem.counts = vec![("cost_count".to_string(), 3), ("gradient_count".to_string(), 1)];
    state.func_counts(&problem);
    problem.counts = vec![("cost_count".to_string(), 5), ("hessian_count".to_string(), 2)];
    state.func_counts(&problem);
    let mut counts = state.get_func_counts().clone();
    counts.sort();
    assert_eq!(
        counts,
        vec![
            ("cost_count".to_string(), 5),
            ("gradient_count".to_string(), 1),
            ("hessian_count".to_string(), 2),
        ]
    );
}

#[test]
fn population_and_target_are_plain_sets() {
    let state: State = IterState::new();
    let state = state
        .population(vec![(vec![1], Cost::Finite(1)), (vec![2], Cost::Finite(2))])
        .target_cost(Cost::Finite(0));
    assert_eq!(state.get_population().unwrap().len(), 2);
    assert_eq!(state.get_target_cost(), Cost::Finite(0));
    let mut state = state.param(vec![5]);
    assert_eq!(state.take_param(), Some(vec![5]));
    assert!(state.get_param().is_none());
}
