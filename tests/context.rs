use openff::error::{Error, Precondition};
use openff::geometry::{chunk_triples, flatten_triples};
use openff::openmm::ContextState;

#[test]
fn chunk_groups_whole_triples() {
    let flat = vec![1, 2, 3, 4, 5, 6];
    assert_eq!(chunk_triples(&flat), vec![(1, 2, 3), (4, 5, 6)]);
}

#[test]
fn chunk_of_empty_is_empty() {
    let flat: Vec<i32> = Vec::new();
    assert!(chunk_triples(&flat).is_empty());
}

#[test]
fn flatten_keeps_atom_order() {
    let triples = vec![(0.5, -1.0, 2.0), (3.25, 4.0, -5.5)];
    assert_eq!(flatten_triples(&triples), vec![0.5, -1.0, 2.0, 3.25, 4.0, -5.5]);
}

#[test]
fn flatten_then_chunk_round_trips() {
    let flat: Vec<f64> = vec![0.1, 0.2, 0.3, 1.1, 1.2, 1.3, 2.1, 2.2, 2.3];
    let back = flatten_triples(&chunk_triples(&flat));
    assert_eq!(back, flat);
    for (a, b) in back.iter().zip(flat.iter()) {
        assert_eq!(a.to_bits(), b.to_bits());
    }
}

#[test]
fn set_positions_accepts_whole_triples() {
    let mut state = ContextState::new();
    assert_eq!(state, ContextState::Created);
    let flat = vec![1.0, 2.0, 3.0, 4.0, 5.0, 6.0];
    let triples = state.set_positions(&flat).unwrap();
    assert_eq!(triples, vec![(1.0, 2.0, 3.0), (4.0, 5.0, 6.0)]);
    assert_eq!(state, ContextState::PositionsSet { atoms: 2 });
}

#[test]
fn set_positions_rejects_partial_triple_when_created() {
    let mut state = ContextState::new();
    let r = state.set_positions(&vec![1.0, 2.0, 3.0, 4.0]);
    assert!(matches!(r, Err(Error::Precondition(Precondition::NotTriples))));
    assert_eq!(state, ContextState::Created);
}

#[test]
fn set_positions_rejects_partial_triple_and_keeps_prior_state() {
    let mut state = ContextState::new();
    state.set_positions(&vec![0.0; 9]).unwrap();
    state.minimize().unwrap();
    let before = state;
    let r = state.set_positions(&vec![0.0; 5]);
    assert!(matches!(r, Err(Error::Precondition(Precondition::NotTriples))));
    assert_eq!(state, before);
    assert_eq!(state, ContextState::Minimized { atoms: 3 });
}

#[test]
fn empty_positions_are_zero_atoms() {
    let mut state = ContextState::new();
    let flat: Vec<f64> = Vec::new();
    assert!(state.set_positions(&flat).unwrap().is_empty());
    assert_eq!(state, ContextState::PositionsSet { atoms: 0 });
}

#[test]
fn minimize_before_positions_fails() {
    let mut state = ContextState::new();
    let r = state.minimize();
    assert!(matches!(r, Err(Error::Precondition(Precondition::NoPositions))));
    assert_eq!(state, ContextState::Created);
}

#[test]
fn minimize_after_positions_moves_to_minimized() {
    let mut state = ContextState::new();
    state.set_positions(&vec![0.0; 15]).unwrap();
    assert_eq!(state.minimize().unwrap(), 5);
    assert_eq!(state, ContextState::Minimized { atoms: 5 });
    assert_eq!(state.minimize().unwrap(), 5);
    assert_eq!(state, ContextState::Minimized { atoms: 5 });
}

#[test]
fn new_positions_after_minimize_reset_phase() {
    let mut state = ContextState::new();
    state.set_positions(&vec![0.0; 6]).unwrap();
    state.minimize().unwrap();
    state.set_positions(&vec![0.0; 3]).unwrap();
    assert_eq!(state, ContextState::PositionsSet { atoms: 1 });
}

#[test]
fn query_before_positions_fails() {
    let state = ContextState::new();
    assert!(matches!(state.query(), Err(Error::Precondition(Precondition::NoPositions))));
}

#[test]
fn repeated_queries_agree_and_keep_state() {
    let mut state = ContextState::new();
    state.set_positions(&vec![0.0; 12]).unwrap();
    let first = state.query().unwrap();
    let second = state.query().unwrap();
    assert_eq!(first, 4);
    assert_eq!(first, second);
    assert_eq!(state, ContextState::PositionsSet { atoms: 4 });
}
