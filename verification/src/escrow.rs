//! The operations of the contract that move escrow.
//!
//! Each of them is guarded: it is refused while another one is under way. Each can be carried
//! out in one call, in which the contract asks its token for the transfer, or in two, between
//! which the caller has the transfer made.

use vstd::prelude::*;

use crate::calls::Call;
use crate::contract::NavinShipment;
use crate::env::{Address, Env};
use crate::model::{answered, Closing};
use crate::settlement::{begin_payment, note_closing, settle, PendingSettlement};
use crate::storage::StorageView;
use crate::types::{NavinError, SettlementOperation, ShipmentStatus};

verus! {

impl NavinShipment {
    /// Asks the token for the transfer of a payment that has been begun, and completes or undoes
    /// the payment.
    fn pay(&mut self, env: &Env, pending: PendingSettlement) -> (r: Result<(), NavinError>)
        ensures
            match old(self).storage@.settle_refusal(pending@, old(self).pays()) {
                Some(e) => r == Err::<(), NavinError>(e) && final(self).storage@ == old(
                    self,
                ).storage@.payment_undone(pending@),
                None => r == Ok::<(), NavinError>(()) && final(self).storage@ == old(
                    self,
                ).storage@.settled(env.timestamp, pending@),
            },
            final(self).has_asked(*old(self), Some(pending@.transfer())),
    {
        let paid: bool = match self.token {
            Some(token) => token.transfer(*env, pending.transfer(), &mut self.asked).is_ok(),
            None => false,
        };
        settle(&mut self.storage, env.timestamp, pending, paid)
    }

    /// Completes a payment that the token has made, and undoes one that it has not.
    pub fn finish_payment(
        &mut self,
        env: &Env,
        pending: PendingSettlement,
        paid: bool,
    ) -> (r: Result<(), NavinError>)
        ensures
            match old(self).storage@.settle_refusal(pending@, paid) {
                Some(e) => r == Err::<(), NavinError>(e) && final(self).storage@ == old(
                    self,
                ).storage@.payment_undone(pending@),
                None => r == Ok::<(), NavinError>(()) && final(self).storage@ == old(
                    self,
                ).storage@.settled(env.timestamp, pending@),
            },
            final(self).same_contract(*old(self)),
    {
        settle(&mut self.storage, env.timestamp, pending, paid)
    }

    /// Begins a deposit: the sender pays into escrow.
    pub fn begin_deposit_escrow(&mut self, env: &Env, caller: Address, id: u64, amount: i128) -> (r:
        Result<PendingSettlement, NavinError>)
        ensures
            match old(self).storage@.deposit_refusal(env.timestamp, caller, id, amount) {
                Some(e) => {
                    &&& r matches Err(error) && error == e
                    &&& final(self).storage@ == old(self).storage@
                },
                None => {
                    &&& r matches Ok(pending) && pending@ == old(self).storage@.deposit_payment(
                        old(self).address,
                        id,
                        amount,
                    )
                    &&& final(self).storage@ == old(self).storage@.payment_begun()
                },
            },
            final(self).same_contract(*old(self)),
    {
        if self.storage.get_reentrancy_lock() {
            return Err(NavinError::ReentrancyDetected);
        }
        let shipment = match self.storage.get_shipment(id) {
            Some(shipment) => shipment,
            None => return Err(NavinError::ShipmentNotFound),
        };
        if caller != shipment.sender {
            return Err(NavinError::Unauthorized);
        }
        if shipment.status != ShipmentStatus::Created {
            return Err(NavinError::InvalidStatus);
        }
        if amount <= 0 {
            return Err(NavinError::InvalidAmount);
        }
        if shipment.escrow_amount > i128::MAX - amount || shipment.total_escrow > i128::MAX
            - amount {
            return Err(NavinError::ArithmeticError);
        }
        begin_payment(
            &mut self.storage,
            env.timestamp,
            id,
            SettlementOperation::Deposit,
            shipment.sender,
            self.address,
            amount,
            Closing::Keep,
        )
    }

    /// The sender pays into escrow.
    pub fn deposit_escrow(
        &mut self,
        env: &Env,
        caller: Address,
        id: u64,
        amount: i128,
    ) -> (r: Result<(), NavinError>)
        ensures
            answered(
                r,
                StorageView::with_payment(
                    old(self).storage@.deposit_refusal(env.timestamp, caller, id, amount),
                    old(self).pays(),
                ),
                old(self).storage@,
                final(self).storage@,
                (),
                old(self).storage@.settled(
                    env.timestamp,
                    old(self).storage@.deposit_payment(old(self).address, id, amount),
                ),
            ),
            old(self).steps_to(
                *final(self),
                env.timestamp,
                (Call::DepositEscrow { caller, id, amount }),
            ),
            final(self).has_asked(
                *old(self),
                old(self).storage@.transfer_asked(
                    old(self).moment(env.timestamp),
                    (Call::DepositEscrow { caller, id, amount }),
                ),
            ),
    {
        let pending = self.begin_deposit_escrow(env, caller, id, amount)?;
        self.pay(env, pending)
    }

    /// Begins a release: the receiver of a delivered shipment lets the carrier have what is in
    /// escrow.
    pub fn begin_release_escrow(&mut self, env: &Env, caller: Address, id: u64) -> (r: Result<
        PendingSettlement,
        NavinError,
    >)
        ensures
            match old(self).storage@.release_refusal(env.timestamp, caller, id) {
                Some(e) => {
                    &&& r matches Err(error) && error == e
                    &&& final(self).storage@ == old(self).storage@
                },
                None => {
                    &&& r matches Ok(pending) && pending@ == old(self).storage@.release_payment(
                        old(self).address,
                        id,
                        Closing::Keep,
                    )
                    &&& final(self).storage@ == old(self).storage@.payment_begun()
                },
            },
            final(self).same_contract(*old(self)),
    {
        if self.storage.get_reentrancy_lock() {
            return Err(NavinError::ReentrancyDetected);
        }
        let shipment = match self.storage.get_shipment(id) {
            Some(shipment) => shipment,
            None => return Err(NavinError::ShipmentNotFound),
        };
        if caller != shipment.receiver {
            return Err(NavinError::Unauthorized);
        }
        if shipment.status != ShipmentStatus::Delivered {
            return Err(NavinError::InvalidStatus);
        }
        if shipment.escrow_amount <= 0 {
            return Err(NavinError::InsufficientFunds);
        }
        begin_payment(
            &mut self.storage,
            env.timestamp,
            id,
            SettlementOperation::Release,
            self.address,
            shipment.carrier,
            shipment.escrow_amount,
            Closing::Keep,
        )
    }

    /// The receiver of a delivered shipment lets the carrier have what is in escrow.
    pub fn release_escrow(
        &mut self,
        env: &Env,
        caller: Address,
        id: u64,
    ) -> (r: Result<(), NavinError>)
        ensures
            answered(
                r,
                StorageView::with_payment(
                    old(self).storage@.release_refusal(env.timestamp, caller, id),
                    old(self).pays(),
                ),
                old(self).storage@,
                final(self).storage@,
                (),
                old(self).storage@.settled(
                    env.timestamp,
                    old(self).storage@.release_payment(old(self).address, id, Closing::Keep),
                ),
            ),
            old(self).steps_to(
                *final(self),
                env.timestamp,
                (Call::ReleaseEscrow { caller, id }),
            ),
            final(self).has_asked(
                *old(self),
                old(self).storage@.transfer_asked(
                    old(self).moment(env.timestamp),
                    (Call::ReleaseEscrow { caller, id }),
                ),
            ),
    {
        let pending = self.begin_release_escrow(env, caller, id)?;
        self.pay(env, pending)
    }

    /// Begins a refund: the sender takes back what is in escrow.
    pub fn begin_refund_escrow(&mut self, env: &Env, caller: Address, id: u64) -> (r: Result<
        PendingSettlement,
        NavinError,
    >)
        ensures
            match old(self).storage@.refund_refusal(env.timestamp, caller, id) {
                Some(e) => {
                    &&& r matches Err(error) && error == e
                    &&& final(self).storage@ == old(self).storage@
                },
                None => {
                    &&& r matches Ok(pending) && pending@ == old(self).storage@.refund_payment(
                        old(self).address,
                        id,
                        Closing::Keep,
                    )
                    &&& final(self).storage@ == old(self).storage@.payment_begun()
                },
            },
            final(self).same_contract(*old(self)),
    {
        if self.storage.get_reentrancy_lock() {
            return Err(NavinError::ReentrancyDetected);
        }
        let shipment = match self.storage.get_shipment(id) {
            Some(shipment) => shipment,
            None => return Err(NavinError::ShipmentNotFound),
        };
        if caller != shipment.sender {
            return Err(NavinError::Unauthorized);
        }
        if shipment.status != ShipmentStatus::Created && shipment.status
            != ShipmentStatus::Cancelled {
            return Err(NavinError::InvalidStatus);
        }
        if shipment.escrow_amount <= 0 {
            return Err(NavinError::InsufficientFunds);
        }
        begin_payment(
            &mut self.storage,
            env.timestamp,
            id,
            SettlementOperation::Refund,
            self.address,
            shipment.sender,
            shipment.escrow_amount,
            Closing::Keep,
        )
    }

    /// The sender takes back what is in escrow.
    pub fn refund_escrow(
        &mut self,
        env: &Env,
        caller: Address,
        id: u64,
    ) -> (r: Result<(), NavinError>)
        ensures
            answered(
                r,
                StorageView::with_payment(
                    old(self).storage@.refund_refusal(env.timestamp, caller, id),
                    old(self).pays(),
                ),
                old(self).storage@,
                final(self).storage@,
                (),
                old(self).storage@.settled(
                    env.timestamp,
                    old(self).storage@.refund_payment(old(self).address, id, Closing::Keep),
                ),
            ),
            old(self).steps_to(
                *final(self),
                env.timestamp,
                (Call::RefundEscrow { caller, id }),
            ),
            final(self).has_asked(
                *old(self),
                old(self).storage@.transfer_asked(
                    old(self).moment(env.timestamp),
                    (Call::RefundEscrow { caller, id }),
                ),
            ),
    {
        let pending = self.begin_refund_escrow(env, caller, id)?;
        self.pay(env, pending)
    }

    /// Begins the confirmation of a delivery, with the release of what is in escrow.
    /// Where nothing is in escrow it is done at once, and no payment is returned.
    pub fn begin_confirm_delivery(
        &mut self,
        env: &Env,
        caller: Address,
        id: u64,
        confirmation_hash: [u8; 32],
    ) -> (r: Result<Option<PendingSettlement>, NavinError>)
        ensures
            match old(self).storage@.confirm_refusal(env.timestamp, caller, id) {
                Some(e) => {
                    &&& r matches Err(error) && error == e
                    &&& final(self).storage@ == old(self).storage@
                },
                None => if old(self).storage@.holds_escrow(id) {
                    &&& r matches Ok(Some(pending)) && pending@ == old(self).storage@.release_payment(
                        old(self).address,
                        id,
                        Closing::Deliver { confirmation_hash },
                    )
                    &&& final(self).storage@ == old(self).storage@.payment_begun()
                } else {
                    &&& r matches Ok(None)
                    &&& final(self).storage@ == old(self).storage@.delivery_confirmed(
                        env.timestamp,
                        old(self).address,
                        id,
                        confirmation_hash,
                    )
                },
            },
            final(self).same_contract(*old(self)),
    {
        if self.storage.get_reentrancy_lock() {
            return Err(NavinError::ReentrancyDetected);
        }
        let mut shipment = match self.storage.get_shipment(id) {
            Some(shipment) => shipment,
            None => return Err(NavinError::ShipmentNotFound),
        };
        if caller != shipment.receiver {
            return Err(NavinError::Unauthorized);
        }
        if !shipment.status.is_under_way() {
            return Err(NavinError::InvalidStatus);
        }
        let closing = Closing::Deliver { confirmation_hash };
        if shipment.escrow_amount > 0 {
            let pending = begin_payment(
                &mut self.storage,
                env.timestamp,
                id,
                SettlementOperation::Release,
                self.address,
                shipment.carrier,
                shipment.escrow_amount,
                closing,
            )?;
            Ok(Some(pending))
        } else {
            shipment.set_status(env.timestamp, ShipmentStatus::Delivered);
            self.storage.set_shipment(&shipment);
            note_closing(&mut self.storage, id, closing);
            Ok(None)
        }
    }

    /// The receiver confirms a delivery, and lets the carrier have what is in escrow.
    pub fn confirm_delivery(
        &mut self,
        env: &Env,
        caller: Address,
        id: u64,
        confirmation_hash: [u8; 32],
    ) -> (r: Result<(), NavinError>)
        ensures
            answered(
                r,
                old(self).storage@.confirm_call_refusal(
                    env.timestamp,
                    caller,
                    id,
                    old(self).pays(),
                ),
                old(self).storage@,
                final(self).storage@,
                (),
                old(self).storage@.delivery_confirmed(
                    env.timestamp,
                    old(self).address,
                    id,
                    confirmation_hash,
                ),
            ),
            old(self).steps_to(
                *final(self),
                env.timestamp,
                (Call::ConfirmDelivery { caller, id, confirmation_hash }),
            ),
            final(self).has_asked(
                *old(self),
                old(self).storage@.transfer_asked(
                    old(self).moment(env.timestamp),
                    (Call::ConfirmDelivery { caller, id, confirmation_hash }),
                ),
            ),
    {
        match self.begin_confirm_delivery(env, caller, id, confirmation_hash)? {
            Some(pending) => self.pay(env, pending),
            None => Ok(()),
        }
    }

    /// Begins the cancellation of a shipment by the administrator, with the refund of what is in
    /// escrow.
    /// Where nothing is in escrow it is done at once, and no payment is returned.
    pub fn begin_force_cancel_shipment(
        &mut self,
        env: &Env,
        caller: Address,
        id: u64,
        reason_hash: [u8; 32],
    ) -> (r: Result<Option<PendingSettlement>, NavinError>)
        ensures
            match old(self).storage@.force_cancel_refusal(env.timestamp, caller, id) {
                Some(e) => {
                    &&& r matches Err(error) && error == e
                    &&& final(self).storage@ == old(self).storage@
                },
                None => if old(self).storage@.holds_escrow(id) {
                    &&& r matches Ok(Some(pending)) && pending@ == old(self).storage@.refund_payment(
                        old(self).address,
                        id,
                        Closing::Cancel { reason_hash },
                    )
                    &&& final(self).storage@ == old(self).storage@.payment_begun()
                } else {
                    &&& r matches Ok(None)
                    &&& final(self).storage@ == old(self).storage@.force_cancelled(
                        env.timestamp,
                        old(self).address,
                        id,
                        reason_hash,
                    )
                },
            },
            final(self).same_contract(*old(self)),
    {
        if self.storage.get_reentrancy_lock() {
            return Err(NavinError::ReentrancyDetected);
        }
        self.check_admin(caller)?;
        let mut shipment = match self.storage.get_shipment(id) {
            Some(shipment) => shipment,
            None => return Err(NavinError::ShipmentNotFound),
        };
        if shipment.status.is_terminal() {
            return Err(NavinError::InvalidStatus);
        }
        let closing = Closing::Cancel { reason_hash };
        if shipment.escrow_amount > 0 {
            let pending = begin_payment(
                &mut self.storage,
                env.timestamp,
                id,
                SettlementOperation::Refund,
                self.address,
                shipment.sender,
                shipment.escrow_amount,
                closing,
            )?;
            Ok(Some(pending))
        } else {
            shipment.set_status(env.timestamp, ShipmentStatus::Cancelled);
            self.storage.set_shipment(&shipment);
            note_closing(&mut self.storage, id, closing);
            Ok(None)
        }
    }

    /// The administrator cancels a shipment, and the sender gets back what is in escrow.
    pub fn force_cancel_shipment(
        &mut self,
        env: &Env,
        caller: Address,
        id: u64,
        reason_hash: [u8; 32],
    ) -> (r: Result<(), NavinError>)
        ensures
            answered(
                r,
                old(self).storage@.force_cancel_call_refusal(
                    env.timestamp,
                    caller,
                    id,
                    old(self).pays(),
                ),
                old(self).storage@,
                final(self).storage@,
                (),
                old(self).storage@.force_cancelled(
                    env.timestamp,
                    old(self).address,
                    id,
                    reason_hash,
                ),
            ),
            old(self).steps_to(
                *final(self),
                env.timestamp,
                (Call::ForceCancelShipment { caller, id, reason_hash }),
            ),
            final(self).has_asked(
                *old(self),
                old(self).storage@.transfer_asked(
                    old(self).moment(env.timestamp),
                    (Call::ForceCancelShipment { caller, id, reason_hash }),
                ),
            ),
    {
        match self.begin_force_cancel_shipment(env, caller, id, reason_hash)? {
            Some(pending) => self.pay(env, pending),
            None => Ok(()),
        }
    }
}

} // verus!
